//! Listing posts one page at a time, as a conversation with the database.
//!
//! `list_posts` takes the page, the page size and the optional search text,
//! and answers with the first database action; each outcome of an action is
//! handed to `ListPosts::step`, which answers with the next action. The
//! matching posts are counted, the page of them is loaded, then the authors
//! and the tags of the loaded posts, and the conversation ends with the page
//! as clients see it and the count, or with a failure when a query failed.
use vstd::prelude::*;
use std::collections::HashMap;
use crate::models::{clone_strings, texts, Post, PostTags, PostTagsView, PostView, User, UserView};
use crate::models::CreatePostRequestView;
use crate::post::create::{successful_actions, tag_insert, CreatePostActionView};
use crate::response_models::{post_response_of, PostResponse, PostResponseView, UserResponseView};

verus! {

broadcast use vstd::std_specs::hash::group_hash_axioms;

/// The pattern that matches any text holding `search`: the search text
/// between two `%` wildcards.
pub open spec fn pattern_of(search: Seq<char>) -> Seq<char> {
    seq!['%'] + search + seq!['%']
}

/// The position, in the whole listing, of the first post of page `page`
/// when pages hold `limit` posts.
pub open spec fn page_offset(page: int, limit: int) -> int {
    (page - 1) * limit
}

/// Whether the offset of page `page` can be computed in 64 bits.
pub open spec fn offset_fits(page: i64, limit: i64) -> bool {
    &&& page - 1 >= i64::MIN
    &&& i64::MIN <= page_offset(page as int, limit as int) <= i64::MAX
}

/// The pattern for the search text `search`.
pub fn search_pattern(search: &str) -> (r: String)
    ensures
        r@ == pattern_of(search@),
        r@.len() == search@.len() + 2,
        r@[0] == '%',
        r@[r@.len() - 1] == '%',
        r@.subrange(1, r@.len() - 1) == search@,
{
    let mut pattern = String::from_str("%");
    pattern.append(search);
    pattern.append("%");
    proof {
        reveal_strlit("%");
    }
    pattern
}

/// Whether the offset of page `page` can be computed in 64 bits.
pub fn offset_in_range(page: i64, limit: i64) -> (r: bool)
    ensures
        r == offset_fits(page, limit),
{
    match page.checked_sub(1) {
        Some(p) => p.checked_mul(limit).is_some(),
        None => false,
    }
}

/// The ids of the authors of `posts`, in the order of the posts, for the
/// posts that have one.
pub open spec fn creator_ids(posts: Seq<PostView>) -> Seq<i32>
    decreases posts.len(),
{
    if posts.len() == 0 {
        Seq::empty()
    } else {
        creator_ids(posts.drop_last()) + match posts.last().created_by {
            Some(id) => seq![id],
            None => Seq::empty(),
        }
    }
}

/// The ids of `posts`, in order.
pub open spec fn post_ids(posts: Seq<PostView>) -> Seq<i32> {
    posts.map_values(|p: PostView| p.id)
}

/// The last of `users` whose id is `id`, if any.
pub open spec fn last_user_with_id(users: Seq<UserView>, id: i32) -> Option<UserView>
    decreases users.len(),
{
    if users.len() == 0 {
        None
    } else if users.last().id == id {
        Some(users.last())
    } else {
        last_user_with_id(users.drop_last(), id)
    }
}

/// The last of the tag rows `rows` that belongs to post `id`, if any.
pub open spec fn last_row_with_id(rows: Seq<PostTagsView>, id: i32) -> Option<PostTagsView>
    decreases rows.len(),
{
    if rows.len() == 0 {
        None
    } else if rows.last().post_id == id {
        Some(rows.last())
    } else {
        last_row_with_id(rows.drop_last(), id)
    }
}

/// The tags of post `id` according to the tag rows `rows`: those of its last
/// row, none when that row holds no aggregate or when it has no row.
pub open spec fn tags_of(rows: Seq<PostTagsView>, id: i32) -> Seq<Seq<char>> {
    match last_row_with_id(rows, id) {
        Some(row) => match row.tags {
            Some(t) => t,
            None => Seq::empty(),
        },
        None => Seq::empty(),
    }
}

/// The author of `post` among `users`: the last user with the post's author
/// id; none when the post has no author id or no user has it.
pub open spec fn author_of(users: Seq<UserView>, post: PostView) -> Option<UserView> {
    match post.created_by {
        Some(uid) => last_user_with_id(users, uid),
        None => None,
    }
}

/// The posts `posts`, in their order, as clients see them, with their
/// authors among `users` and their tags among `rows`.
pub open spec fn post_responses_of(
    posts: Seq<PostView>,
    users: Seq<UserView>,
    rows: Seq<PostTagsView>,
) -> Seq<PostResponseView> {
    posts.map_values(|p: PostView| post_response_of(p, author_of(users, p), tags_of(rows, p.id)))
}

pub open spec fn post_views(v: Seq<Post>) -> Seq<PostView> {
    v.map_values(|p: Post| p@)
}

pub open spec fn user_views(v: Seq<User>) -> Seq<UserView> {
    v.map_values(|u: User| u@)
}

pub open spec fn row_views(v: Seq<PostTags>) -> Seq<PostTagsView> {
    v.map_values(|r: PostTags| r@)
}

pub open spec fn response_views(v: Seq<PostResponse>) -> Seq<PostResponseView> {
    v.map_values(|r: PostResponse| r@)
}

/// The ids of the authors of `posts`, in the order of the posts, for the
/// posts that have one.
pub fn author_ids(posts: &Vec<Post>) -> (r: Vec<i32>)
    ensures
        r@ == creator_ids(post_views(posts@)),
{
    let mut r: Vec<i32> = Vec::new();
    let mut i: usize = 0;
    while i < posts.len()
        invariant
            i <= posts.len(),
            r@ == creator_ids(post_views(posts@).take(i as int)),
        decreases posts.len() - i,
    {
        let ghost before = post_views(posts@).take(i as int);
        assert(post_views(posts@).take(i + 1).drop_last() =~= before);
        match posts[i].created_by {
            Some(id) => r.push(id),
            None => {},
        }
        i = i + 1;
        assert(r@ =~= creator_ids(post_views(posts@).take(i as int)));
    }
    assert(post_views(posts@).take(posts.len() as int) =~= post_views(posts@));
    r
}

/// The ids of `posts`, in order.
pub fn ids_of_posts(posts: &Vec<Post>) -> (r: Vec<i32>)
    ensures
        r@ == post_ids(post_views(posts@)),
{
    let mut r: Vec<i32> = Vec::new();
    let mut i: usize = 0;
    while i < posts.len()
        invariant
            i <= posts.len(),
            r@ =~= post_ids(post_views(posts@)).take(i as int),
        decreases posts.len() - i,
    {
        r.push(posts[i].id);
        i = i + 1;
    }
    r
}

/// The index in `users` of the last user with each id.
fn index_users(users: &Vec<User>) -> (m: HashMap<i32, usize>)
    ensures
        forall|id: i32|
            #![trigger m@.contains_key(id)]
            m@.contains_key(id) <==> last_user_with_id(user_views(users@), id) is Some,
        forall|id: i32|
            #![trigger m@[id]]
            m@.contains_key(id) ==> m@[id] < users.len() && last_user_with_id(
                user_views(users@),
                id,
            ) == Some(users@[m@[id] as int]@),
{
    let mut m: HashMap<i32, usize> = HashMap::new();
    let mut i: usize = 0;
    while i < users.len()
        invariant
            i <= users.len(),
            forall|id: i32|
                #![trigger m@.contains_key(id)]
                m@.contains_key(id) <==> last_user_with_id(user_views(users@).take(i as int), id) is Some,
            forall|id: i32|
                #![trigger m@[id]]
                m@.contains_key(id) ==> m@[id] < i && last_user_with_id(
                    user_views(users@).take(i as int),
                    id,
                ) == Some(users@[m@[id] as int]@),
        decreases users.len() - i,
    {
        let ghost vs = user_views(users@);
        assert(vs.take(i + 1).drop_last() =~= vs.take(i as int));
        assert(vs.take(i + 1).last() == users@[i as int]@);
        m.insert(users[i].id, i);
        i = i + 1;
    }
    assert(user_views(users@).take(users.len() as int) =~= user_views(users@));
    m
}

/// The index in `rows` of the last row of each post.
fn index_rows(rows: &Vec<PostTags>) -> (m: HashMap<i32, usize>)
    ensures
        forall|id: i32|
            #![trigger m@.contains_key(id)]
            m@.contains_key(id) <==> last_row_with_id(row_views(rows@), id) is Some,
        forall|id: i32|
            #![trigger m@[id]]
            m@.contains_key(id) ==> m@[id] < rows.len() && last_row_with_id(row_views(rows@), id)
                == Some(rows@[m@[id] as int]@),
{
    let mut m: HashMap<i32, usize> = HashMap::new();
    let mut i: usize = 0;
    while i < rows.len()
        invariant
            i <= rows.len(),
            forall|id: i32|
                #![trigger m@.contains_key(id)]
                m@.contains_key(id) <==> last_row_with_id(row_views(rows@).take(i as int), id) is Some,
            forall|id: i32|
                #![trigger m@[id]]
                m@.contains_key(id) ==> m@[id] < i && last_row_with_id(
                    row_views(rows@).take(i as int),
                    id,
                ) == Some(rows@[m@[id] as int]@),
        decreases rows.len() - i,
    {
        let ghost vs = row_views(rows@);
        assert(vs.take(i + 1).drop_last() =~= vs.take(i as int));
        assert(vs.take(i + 1).last() == rows@[i as int]@);
        m.insert(rows[i].post_id, i);
        i = i + 1;
    }
    assert(row_views(rows@).take(rows.len() as int) =~= row_views(rows@));
    m
}

/// The posts `posts`, in their order, as clients see them: each with the
/// last of `users` that has its author id, and with the tags of the last of
/// `rows` that belongs to it (none when there is no such row or it holds no
/// aggregate).
pub fn assemble_post_responses(
    posts: &Vec<Post>,
    users: &Vec<User>,
    rows: &Vec<PostTags>,
) -> (r: Vec<PostResponse>)
    ensures
        response_views(r@) == post_responses_of(
            post_views(posts@),
            user_views(users@),
            row_views(rows@),
        ),
{
    let user_index = index_users(users);
    let row_index = index_rows(rows);
    let ghost target = post_responses_of(
        post_views(posts@),
        user_views(users@),
        row_views(rows@),
    );
    let mut r: Vec<PostResponse> = Vec::new();
    let mut i: usize = 0;
    while i < posts.len()
        invariant
            i <= posts.len(),
            target == post_responses_of(post_views(posts@), user_views(users@), row_views(rows@)),
            forall|id: i32|
                #![trigger user_index@.contains_key(id)]
                user_index@.contains_key(id) <==> last_user_with_id(user_views(users@), id) is Some,
            forall|id: i32|
                #![trigger user_index@[id]]
                user_index@.contains_key(id) ==> user_index@[id] < users.len() && last_user_with_id(
                    user_views(users@),
                    id,
                ) == Some(users@[user_index@[id] as int]@),
            forall|id: i32|
                #![trigger row_index@.contains_key(id)]
                row_index@.contains_key(id) <==> last_row_with_id(row_views(rows@), id) is Some,
            forall|id: i32|
                #![trigger row_index@[id]]
                row_index@.contains_key(id) ==> row_index@[id] < rows.len() && last_row_with_id(
                    row_views(rows@),
                    id,
                ) == Some(rows@[row_index@[id] as int]@),
            response_views(r@) =~= target.take(i as int),
        decreases posts.len() - i,
    {
        let post = &posts[i];
        let author: Option<&User> = match post.created_by {
            Some(uid) => match user_index.get(&uid) {
                Some(j) => Some(&users[*j]),
                None => None,
            },
            None => None,
        };
        let tags: Vec<String> = match row_index.get(&post.id) {
            Some(j) => match &rows[*j].tags {
                Some(t) => clone_strings(t),
                None => Vec::new(),
            },
            None => Vec::new(),
        };
        let resp = PostResponse::from_post(post, author, tags);
        proof {
            let pv = post_views(posts@)[i as int];
            assert(pv == post@);
            assert(match author {
                Some(u) => Some(u@),
                None => None::<UserView>,
            } == author_of(user_views(users@), pv));
            assert(texts(tags@) == tags_of(row_views(rows@), pv.id));
            assert(resp@ == target[i as int]);
        }
        let ghost before = r@;
        r.push(resp);
        proof {
            assert(response_views(r@) =~= response_views(before).push(target[i as int]));
            assert(target.take(i as int).push(target[i as int]) =~= target.take(i + 1));
        }
        i = i + 1;
    }
    r
}

/// What the database is asked to do next, or how the listing ends.
pub enum ListPostsAction {
    /// Count the posts whose title or body matches `pattern`, ignoring case,
    /// or all posts when there is no pattern.
    CountPosts { pattern: Option<String> },
    /// Load the posts whose title or body matches `pattern`, ignoring case
    /// (all when there is none), newest id first, skipping the first
    /// `offset` and keeping at most `limit`.
    LoadPosts { pattern: Option<String>, limit: i64, offset: i64 },
    /// Load the users with these ids.
    LoadUsers { user_ids: Vec<i32> },
    /// Load the tags of the posts with these ids, one row per post.
    LoadTags { post_ids: Vec<i32> },
    /// The listing is over: the page of posts and the count of matching posts.
    Respond { posts: Vec<PostResponse>, total_count: i64 },
    /// The listing is over and failed.
    Fail,
}

/// How the database answered the last action.
pub enum ListPostsEvent {
    Counted(i64),
    PostsLoaded(Vec<Post>),
    UsersLoaded(Vec<User>),
    TagsLoaded(Vec<PostTags>),
    /// The database reported an error.
    QueryFailed,
}

pub enum ListPostsActionView {
    CountPosts { pattern: Option<Seq<char>> },
    LoadPosts { pattern: Option<Seq<char>>, limit: i64, offset: i64 },
    LoadUsers { user_ids: Seq<i32> },
    LoadTags { post_ids: Seq<i32> },
    Respond { posts: Seq<PostResponseView>, total_count: i64 },
    Fail,
}

pub enum ListPostsEventView {
    Counted(i64),
    PostsLoaded(Seq<PostView>),
    UsersLoaded(Seq<UserView>),
    TagsLoaded(Seq<PostTagsView>),
    QueryFailed,
}

pub open spec fn text_opt(s: Option<String>) -> Option<Seq<char>> {
    match s {
        Some(s) => Some(s@),
        None => None,
    }
}

impl View for ListPostsAction {
    type V = ListPostsActionView;

    open spec fn view(&self) -> ListPostsActionView {
        match self {
            ListPostsAction::CountPosts { pattern } => ListPostsActionView::CountPosts {
                pattern: text_opt(*pattern),
            },
            ListPostsAction::LoadPosts { pattern, limit, offset } => ListPostsActionView::LoadPosts {
                pattern: text_opt(*pattern),
                limit: *limit,
                offset: *offset,
            },
            ListPostsAction::LoadUsers { user_ids } => ListPostsActionView::LoadUsers {
                user_ids: user_ids@,
            },
            ListPostsAction::LoadTags { post_ids } => ListPostsActionView::LoadTags {
                post_ids: post_ids@,
            },
            ListPostsAction::Respond { posts, total_count } => ListPostsActionView::Respond {
                posts: response_views(posts@),
                total_count: *total_count,
            },
            ListPostsAction::Fail => ListPostsActionView::Fail,
        }
    }
}

impl View for ListPostsEvent {
    type V = ListPostsEventView;

    open spec fn view(&self) -> ListPostsEventView {
        match self {
            ListPostsEvent::Counted(n) => ListPostsEventView::Counted(*n),
            ListPostsEvent::PostsLoaded(p) => ListPostsEventView::PostsLoaded(post_views(p@)),
            ListPostsEvent::UsersLoaded(u) => ListPostsEventView::UsersLoaded(user_views(u@)),
            ListPostsEvent::TagsLoaded(t) => ListPostsEventView::TagsLoaded(row_views(t@)),
            ListPostsEvent::QueryFailed => ListPostsEventView::QueryFailed,
        }
    }
}

/// Where a listing stands.
pub enum ListStage {
    AwaitCount,
    AwaitPosts { total: i64 },
    AwaitUsers { total: i64, posts: Vec<Post> },
    AwaitTags { total: i64, posts: Vec<Post>, users: Vec<User> },
    Done,
}

pub enum ListStageView {
    AwaitCount,
    AwaitPosts { total: i64 },
    AwaitUsers { total: i64, posts: Seq<PostView> },
    AwaitTags { total: i64, posts: Seq<PostView>, users: Seq<UserView> },
    Done,
}

/// A listing under way: its search pattern, page window and stage.
pub struct ListPosts {
    pattern: Option<String>,
    limit: i64,
    offset: i64,
    stage: ListStage,
}

pub struct ListPostsView {
    pub pattern: Option<Seq<char>>,
    pub limit: i64,
    pub offset: i64,
    pub stage: ListStageView,
}

impl View for ListPosts {
    type V = ListPostsView;

    closed spec fn view(&self) -> ListPostsView {
        ListPostsView {
            pattern: text_opt(self.pattern),
            limit: self.limit,
            offset: self.offset,
            stage: match self.stage {
                ListStage::AwaitCount => ListStageView::AwaitCount,
                ListStage::AwaitPosts { total } => ListStageView::AwaitPosts { total },
                ListStage::AwaitUsers { total, posts } => ListStageView::AwaitUsers {
                    total,
                    posts: post_views(posts@),
                },
                ListStage::AwaitTags { total, posts, users } => ListStageView::AwaitTags {
                    total,
                    posts: post_views(posts@),
                    users: user_views(users@),
                },
                ListStage::Done => ListStageView::Done,
            },
        }
    }
}

/// A listing of page `page` of `limit` posts, searching for `search`,
/// starts by counting the matching posts.
pub open spec fn list_posts_start(page: i64, limit: i64, search: Option<Seq<char>>) -> (
    ListPostsView,
    ListPostsActionView,
) {
    let pattern = match search {
        Some(s) => Some(pattern_of(s)),
        None => None,
    };
    (
        ListPostsView {
            pattern,
            limit,
            offset: page_offset(page as int, limit as int) as i64,
            stage: ListStageView::AwaitCount,
        },
        ListPostsActionView::CountPosts { pattern },
    )
}

/// The next stage and action after the database answered `e` in stage `s`.
/// A failed query, an answer that does not fit the stage, or any answer
/// once the listing is over, ends the listing in failure.
pub open spec fn list_posts_step(s: ListPostsView, e: ListPostsEventView) -> (
    ListPostsView,
    ListPostsActionView,
) {
    let done = ListPostsView { stage: ListStageView::Done, ..s };
    let fail = (done, ListPostsActionView::Fail);
    match s.stage {
        ListStageView::AwaitCount => match e {
            ListPostsEventView::Counted(n) => (
                ListPostsView { stage: ListStageView::AwaitPosts { total: n }, ..s },
                ListPostsActionView::LoadPosts { pattern: s.pattern, limit: s.limit, offset: s.offset },
            ),
            _ => fail,
        },
        ListStageView::AwaitPosts { total } => match e {
            ListPostsEventView::PostsLoaded(posts) => (
                ListPostsView { stage: ListStageView::AwaitUsers { total, posts }, ..s },
                ListPostsActionView::LoadUsers { user_ids: creator_ids(posts) },
            ),
            _ => fail,
        },
        ListStageView::AwaitUsers { total, posts } => match e {
            ListPostsEventView::UsersLoaded(users) => (
                ListPostsView { stage: ListStageView::AwaitTags { total, posts, users }, ..s },
                ListPostsActionView::LoadTags { post_ids: post_ids(posts) },
            ),
            _ => fail,
        },
        ListStageView::AwaitTags { total, posts, users } => match e {
            ListPostsEventView::TagsLoaded(rows) => (
                done,
                ListPostsActionView::Respond {
                    posts: post_responses_of(posts, users, rows),
                    total_count: total,
                },
            ),
            _ => fail,
        },
        ListStageView::Done => fail,
    }
}

fn clone_pattern(p: &Option<String>) -> (r: Option<String>)
    ensures
        text_opt(r) == text_opt(*p),
{
    match p {
        Some(s) => Some(s.clone()),
        None => None,
    }
}

/// Starts the listing of page `page` of `limit` posts, newest first, of the
/// posts whose title or body holds `search`, ignoring case (all posts when
/// there is no search text). The page starts after the first
/// `(page - 1) * limit` matching posts.
pub fn list_posts(page: i64, limit: i64, search: Option<String>) -> (r: (ListPosts, ListPostsAction))
    requires
        offset_fits(page, limit),
    ensures
        (r.0@, r.1@) == list_posts_start(page, limit, text_opt(search)),
        r.1 matches ListPostsAction::CountPosts { pattern } && (search is None ==> pattern is None)
            && (search matches Some(t) ==> pattern matches Some(pat) && pat@ == seq!['%'] + t@
            + seq!['%']),
{
    let pattern = match search {
        Some(text) => Some(search_pattern(text.as_str())),
        None => None,
    };
    let offset = (page - 1) * limit;
    let action = ListPostsAction::CountPosts { pattern: clone_pattern(&pattern) };
    (ListPosts { pattern, limit, offset, stage: ListStage::AwaitCount }, action)
}

impl ListPosts {
    /// Hands the database's answer to the last action to the listing, and
    /// returns the listing's next stage and action.
    pub fn step(self, event: ListPostsEvent) -> (r: (ListPosts, ListPostsAction))
        ensures
            (r.0@, r.1@) == list_posts_step(self@, event@),
    {
        let ListPosts { pattern, limit, offset, stage } = self;
        match stage {
            ListStage::AwaitCount => match event {
                ListPostsEvent::Counted(n) => {
                    let action = ListPostsAction::LoadPosts {
                        pattern: clone_pattern(&pattern),
                        limit,
                        offset,
                    };
                    (ListPosts { pattern, limit, offset, stage: ListStage::AwaitPosts { total: n } }, action)
                },
                _ => (ListPosts { pattern, limit, offset, stage: ListStage::Done }, ListPostsAction::Fail),
            },
            ListStage::AwaitPosts { total } => match event {
                ListPostsEvent::PostsLoaded(posts) => {
                    let user_ids = author_ids(&posts);
                    (
                        ListPosts { pattern, limit, offset, stage: ListStage::AwaitUsers { total, posts } },
                        ListPostsAction::LoadUsers { user_ids },
                    )
                },
                _ => (ListPosts { pattern, limit, offset, stage: ListStage::Done }, ListPostsAction::Fail),
            },
            ListStage::AwaitUsers { total, posts } => match event {
                ListPostsEvent::UsersLoaded(users) => {
                    let post_ids = ids_of_posts(&posts);
                    (
                        ListPosts {
                            pattern,
                            limit,
                            offset,
                            stage: ListStage::AwaitTags { total, posts, users },
                        },
                        ListPostsAction::LoadTags { post_ids },
                    )
                },
                _ => (ListPosts { pattern, limit, offset, stage: ListStage::Done }, ListPostsAction::Fail),
            },
            ListStage::AwaitTags { total, posts, users } => match event {
                ListPostsEvent::TagsLoaded(rows) => {
                    let responses = assemble_post_responses(&posts, &users, &rows);
                    (
                        ListPosts { pattern, limit, offset, stage: ListStage::Done },
                        ListPostsAction::Respond { posts: responses, total_count: total },
                    )
                },
                _ => (ListPosts { pattern, limit, offset, stage: ListStage::Done }, ListPostsAction::Fail),
            },
            ListStage::Done => (ListPosts { pattern, limit, offset, stage: ListStage::Done }, ListPostsAction::Fail),
        }
    }
}

/// The last stage and the actions produced when the database gives the
/// answers `events`, one after the other, from stage `s`.
pub open spec fn list_posts_run(s: ListPostsView, events: Seq<ListPostsEventView>) -> (
    ListPostsView,
    Seq<ListPostsActionView>,
)
    decreases events.len(),
{
    if events.len() == 0 {
        (s, Seq::empty())
    } else {
        let next = list_posts_step(s, events[0]);
        let rest = list_posts_run(next.0, events.drop_first());
        (rest.0, seq![next.1] + rest.1)
    }
}

/// A listing on which every query succeeds counts the matching posts and
/// then loads the page with one and the same search pattern (the search
/// text between two wildcards), loads the page at the offset of the
/// requested page, then loads the authors named by the loaded posts and the
/// tags of the loaded posts, and answers with the loaded posts in their
/// order, as clients see them, and with the count.
pub proof fn lemma_list_posts_succeeds(
    page: i64,
    limit: i64,
    search: Option<Seq<char>>,
    total: i64,
    posts: Seq<PostView>,
    users: Seq<UserView>,
    rows: Seq<PostTagsView>,
)
    ensures
        ({
            let start = list_posts_start(page, limit, search);
            let pattern = match search {
                Some(t) => Some(pattern_of(t)),
                None => None,
            };
            let events = seq![
                ListPostsEventView::Counted(total),
                ListPostsEventView::PostsLoaded(posts),
                ListPostsEventView::UsersLoaded(users),
                ListPostsEventView::TagsLoaded(rows),
            ];
            &&& start.1 == ListPostsActionView::CountPosts { pattern }
            &&& list_posts_run(start.0, events) == (
                ListPostsView { stage: ListStageView::Done, ..start.0 },
                seq![
                    ListPostsActionView::LoadPosts {
                        pattern,
                        limit,
                        offset: page_offset(page as int, limit as int) as i64,
                    },
                    ListPostsActionView::LoadUsers { user_ids: creator_ids(posts) },
                    ListPostsActionView::LoadTags { post_ids: post_ids(posts) },
                    ListPostsActionView::Respond {
                        posts: post_responses_of(posts, users, rows),
                        total_count: total,
                    },
                ],
            )
        }),
{
    let start = list_posts_start(page, limit, search);
    let events = seq![
        ListPostsEventView::Counted(total),
        ListPostsEventView::PostsLoaded(posts),
        ListPostsEventView::UsersLoaded(users),
        ListPostsEventView::TagsLoaded(rows),
    ];
    let s1 = list_posts_step(start.0, events[0]);
    let s2 = list_posts_step(s1.0, events[1]);
    let s3 = list_posts_step(s2.0, events[2]);
    let s4 = list_posts_step(s3.0, events[3]);
    let e1 = events.drop_first();
    let e2 = e1.drop_first();
    let e3 = e2.drop_first();
    let e4 = e3.drop_first();
    assert(e1 =~= seq![events[1], events[2], events[3]]);
    assert(e2 =~= seq![events[2], events[3]]);
    assert(e3 =~= seq![events[3]]);
    assert(e4 =~= Seq::<ListPostsEventView>::empty());
    assert(list_posts_run(s4.0, e4) == (s4.0, Seq::<ListPostsActionView>::empty()));
    assert(list_posts_run(s3.0, e3).1 =~= seq![s4.1]);
    assert(list_posts_run(s2.0, e2).1 =~= seq![s3.1, s4.1]);
    assert(list_posts_run(s1.0, e1).1 =~= seq![s2.1, s3.1, s4.1]);
    assert(list_posts_run(start.0, events).1 =~= seq![s1.1, s2.1, s3.1, s4.1]);
}

/// Each answered post is the loaded post at the same place, with the tags
/// stored for it and, when it names an author that was loaded, that author.
pub proof fn lemma_page_keeps_loaded_posts(
    posts: Seq<PostView>,
    users: Seq<UserView>,
    rows: Seq<PostTagsView>,
    i: int,
)
    requires
        0 <= i < posts.len(),
    ensures
        post_responses_of(posts, users, rows).len() == posts.len(),
        post_responses_of(posts, users, rows)[i].id == posts[i].id,
        post_responses_of(posts, users, rows)[i].title == posts[i].title,
        post_responses_of(posts, users, rows)[i].body == posts[i].body,
        post_responses_of(posts, users, rows)[i].tags == tags_of(rows, posts[i].id),
        post_responses_of(posts, users, rows)[i].created_by is Some <==> author_of(users, posts[i]) is Some,
{
}

/// Any failed query ends the listing in failure.
pub proof fn lemma_list_posts_failed_query(s: ListPostsView)
    ensures
        list_posts_step(s, ListPostsEventView::QueryFailed) == (
            ListPostsView { stage: ListStageView::Done, ..s },
            ListPostsActionView::Fail,
        ),
{
}

/// Every step keeps the search pattern and the page window of the listing.
pub proof fn lemma_list_posts_keeps_window(s: ListPostsView, e: ListPostsEventView)
    ensures
        list_posts_step(s, e).0.pattern == s.pattern,
        list_posts_step(s, e).0.limit == s.limit,
        list_posts_step(s, e).0.offset == s.offset,
{
}

/// The page queries of consecutive pages of the same size follow each other
/// without gap or overlap: the next page's query starts `limit` places after
/// the page's own, with the same pattern and size.
pub proof fn lemma_consecutive_page_queries(page: i64, next: i64, limit: i64, search: Option<Seq<char>>)
    requires
        next == page + 1,
        offset_fits(page, limit),
        offset_fits(next, limit),
    ensures
        list_posts_start(next, limit, search).0.offset == list_posts_start(page, limit, search).0.offset
            + limit,
        list_posts_start(next, limit, search).0.pattern == list_posts_start(page, limit, search).0.pattern,
        list_posts_start(next, limit, search).0.limit == list_posts_start(page, limit, search).0.limit,
{
    assert((next - 1) * limit == (page - 1) * limit + limit) by (nonlinear_arith)
        requires
            next == page + 1,
    ;
}

/// With pages of `limit >= 1` posts, the page windows `[offset, offset + limit)`
/// of the pages `1, 2, ...` cover the places `0, 1, ...` of the listing, each
/// exactly once: place `k` lies in the window of page `p` exactly when `p` is
/// `k / limit + 1`.
pub proof fn lemma_place_in_one_page(limit: int, k: int, p: int)
    requires
        limit >= 1,
        k >= 0,
        p >= 1,
    ensures
        (page_offset(p, limit) <= k < page_offset(p, limit) + limit) <==> p == k / limit + 1,
{
    let q = k / limit;
    let r = k % limit;
    vstd::arithmetic::div_mod::lemma_fundamental_div_mod(k, limit);
    vstd::arithmetic::div_mod::lemma_mod_pos_bound(k, limit);
    if p == q + 1 {
        assert(page_offset(p, limit) == q * limit) by (nonlinear_arith)
            requires
                p == q + 1,
        ;
        assert(k == q * limit + r) by (nonlinear_arith)
            requires
                k == limit * q + r,
        ;
    }
    if page_offset(p, limit) <= k < page_offset(p, limit) + limit {
        assert(p == q + 1) by (nonlinear_arith)
            requires
                (p - 1) * limit <= k,
                k < (p - 1) * limit + limit,
                k == limit * q + r,
                0 <= r < limit,
                limit >= 1,
        ;
    }
}

/// A post that a listing loads as the same stored row that its creation
/// received, with the author that the creation's lookup found (none when the
/// row names no author) and with the request's tags in its tag row, is
/// answered exactly as the creation answered it.
pub proof fn lemma_listing_answers_created_post(
    req: CreatePostRequestView,
    post: PostView,
    author: Option<UserView>,
    posts: Seq<PostView>,
    users: Seq<UserView>,
    rows: Seq<PostTagsView>,
    i: int,
)
    requires
        0 <= i < posts.len(),
        posts[i] == post,
        author_of(users, post) == (if post.created_by is Some { author } else { None }),
        tags_of(rows, post.id) == req.tags,
    ensures
        successful_actions(req.tags, post, author).last() == CreatePostActionView::Respond(
            post_responses_of(posts, users, rows)[i],
        ),
{
    let acts = successful_actions(req.tags, post, author);
    let n = req.tags.len();
    let inserts = Seq::new(n, |j: int| tag_insert(req.tags, post, j));
    match post.created_by {
        Some(uid) => {
            let tail = seq![
                CreatePostActionView::FindUser(uid),
                CreatePostActionView::Respond(post_response_of(post, author, req.tags)),
            ];
            assert(acts == inserts + tail);
            assert(acts.last() == tail.last());
        },
        None => {
            let tail = seq![CreatePostActionView::Respond(post_response_of(post, None, req.tags))];
            assert(acts == inserts + tail);
            assert(acts.last() == tail.last());
        },
    }
}

/// The pattern of a search text is the text itself, unchanged, between two
/// `%` wildcards.
pub proof fn lemma_pattern_is_text_between_wildcards(search: Seq<char>)
    ensures
        pattern_of(search).len() == search.len() + 2,
        pattern_of(search)[0] == '%',
        pattern_of(search)[search.len() as int + 1] == '%',
        forall|k: int| 0 <= k < search.len() ==> pattern_of(search)[k + 1] == search[k],
        pattern_of(search).subrange(1, search.len() as int + 1) == search,
{
    assert(pattern_of(search).subrange(1, search.len() as int + 1) =~= search);
}

/// A listing starts by counting with the search text between two wildcards
/// (no pattern without a search text), and keeps that pattern, the page
/// size, and the offset `(page - 1) * limit` for its page query.
pub proof fn lemma_listing_window(page: i64, limit: i64, search: Option<Seq<char>>)
    requires
        offset_fits(page, limit),
    ensures
        list_posts_start(page, limit, search).0.offset == (page - 1) * limit,
        list_posts_start(page, limit, search).0.limit == limit,
        list_posts_start(page, limit, search).0.stage is AwaitCount,
        search is None ==> list_posts_start(page, limit, search).0.pattern is None,
        search matches Some(t) ==> list_posts_start(page, limit, search).0.pattern == Some(
            seq!['%'] + t + seq!['%'],
        ),
        list_posts_start(page, limit, search).1 == (ListPostsActionView::CountPosts {
            pattern: list_posts_start(page, limit, search).0.pattern,
        }),
{
}

proof fn lemma_last_user(users: Seq<UserView>, id: i32)
    ensures
        last_user_with_id(users, id) matches Some(u) ==> exists|j: int|
            0 <= j < users.len() && users[j] == u && u.id == id && forall|k: int|
                j < k < users.len() ==> users[k].id != id,
        last_user_with_id(users, id) is None ==> forall|j: int|
            0 <= j < users.len() ==> users[j].id != id,
    decreases users.len(),
{
    if users.len() > 0 {
        let init = users.drop_last();
        lemma_last_user(init, id);
        if users.last().id == id {
            assert(users[users.len() - 1] == users.last());
        } else {
            match last_user_with_id(init, id) {
                Some(u) => {
                    let j = choose|j: int|
                        0 <= j < init.len() && init[j] == u && u.id == id && forall|k: int|
                            j < k < init.len() ==> init[k].id != id;
                    assert(users[j] == u);
                    assert forall|k: int| j < k < users.len() implies users[k].id != id by {
                        if k < init.len() {
                            assert(users[k] == init[k]);
                        }
                    }
                },
                None => {
                    assert forall|j: int| 0 <= j < users.len() implies users[j].id != id by {
                        if j < init.len() {
                            assert(users[j] == init[j]);
                        }
                    }
                },
            }
        }
    }
}

proof fn lemma_last_row(rows: Seq<PostTagsView>, id: i32)
    ensures
        last_row_with_id(rows, id) matches Some(r) ==> exists|j: int|
            0 <= j < rows.len() && rows[j] == r && r.post_id == id && forall|k: int|
                j < k < rows.len() ==> rows[k].post_id != id,
        last_row_with_id(rows, id) is None ==> forall|j: int|
            0 <= j < rows.len() ==> rows[j].post_id != id,
    decreases rows.len(),
{
    if rows.len() > 0 {
        let init = rows.drop_last();
        lemma_last_row(init, id);
        if rows.last().post_id == id {
            assert(rows[rows.len() - 1] == rows.last());
        } else {
            match last_row_with_id(init, id) {
                Some(r) => {
                    let j = choose|j: int|
                        0 <= j < init.len() && init[j] == r && r.post_id == id && forall|k: int|
                            j < k < init.len() ==> init[k].post_id != id;
                    assert(rows[j] == r);
                    assert forall|k: int| j < k < rows.len() implies rows[k].post_id != id by {
                        if k < init.len() {
                            assert(rows[k] == init[k]);
                        }
                    }
                },
                None => {
                    assert forall|j: int| 0 <= j < rows.len() implies rows[j].post_id != id by {
                        if j < init.len() {
                            assert(rows[j] == init[j]);
                        }
                    }
                },
            }
        }
    }
}

/// The place of the last of `users` with id `id`, when there is one.
pub open spec fn is_last_user_with_id(users: Seq<UserView>, id: i32, j: int) -> bool {
    &&& 0 <= j < users.len()
    &&& users[j].id == id
    &&& forall|k: int| j < k < users.len() ==> users[k].id != id
}

/// The place of the last of `rows` for post `id`, when there is one.
pub open spec fn is_last_row_with_id(rows: Seq<PostTagsView>, id: i32, j: int) -> bool {
    &&& 0 <= j < rows.len()
    &&& rows[j].post_id == id
    &&& forall|k: int| j < k < rows.len() ==> rows[k].post_id != id
}

/// A listed post's author is a loaded user with the id that the post names:
/// the last loaded user with that id, shown field by field. A post that
/// names no author, or names one that was not loaded, is listed without one.
pub proof fn lemma_listed_author_is_named_author(
    posts: Seq<PostView>,
    users: Seq<UserView>,
    rows: Seq<PostTagsView>,
    i: int,
)
    requires
        0 <= i < posts.len(),
    ensures
        post_responses_of(posts, users, rows).len() == posts.len(),
        post_responses_of(posts, users, rows)[i].created_by matches Some(a) ==> posts[i].created_by
            == Some(a.user_id),
        forall|j: int|
            #![trigger users[j]]
            posts[i].created_by == Some(users[j].id) && is_last_user_with_id(users, users[j].id, j)
                ==> post_responses_of(posts, users, rows)[i].created_by == Some(
                UserResponseView {
                    user_id: users[j].id,
                    username: users[j].username,
                    first_name: users[j].first_name,
                    last_name: users[j].last_name,
                },
            ),
        (forall|j: int| 0 <= j < users.len() ==> Some(users[j].id) != posts[i].created_by)
            ==> post_responses_of(posts, users, rows)[i].created_by is None,
{
    let p = posts[i];
    match p.created_by {
        Some(uid) => {
            lemma_last_user(users, uid);
            assert forall|j: int|
                #![trigger users[j]]
                p.created_by == Some(users[j].id) && is_last_user_with_id(users, users[j].id, j)
                implies last_user_with_id(users, uid) == Some(users[j]) by {
                match last_user_with_id(users, uid) {
                    Some(u) => {
                        let j2 = choose|j2: int|
                            0 <= j2 < users.len() && users[j2] == u && u.id == uid && forall|k: int|
                                j2 < k < users.len() ==> users[k].id != uid;
                        if j2 < j {
                            assert(users[j].id != uid);
                        } else if j < j2 {
                            assert(users[j2].id != uid);
                        }
                    },
                    None => {
                        assert(users[j].id != uid);
                    },
                }
            }
        },
        None => {},
    }
}

/// A listed post's tags are those of the last tag row of its own id (none
/// when that row holds no aggregate), and a post without a tag row of its
/// own is listed without tags: no post gets the tags of another.
pub proof fn lemma_listed_tags_are_own(
    posts: Seq<PostView>,
    users: Seq<UserView>,
    rows: Seq<PostTagsView>,
    i: int,
)
    requires
        0 <= i < posts.len(),
    ensures
        forall|j: int|
            #![trigger rows[j]]
            is_last_row_with_id(rows, posts[i].id, j) ==> post_responses_of(posts, users, rows)[i].tags
                == match rows[j].tags {
                Some(t) => t,
                None => Seq::empty(),
            },
        (forall|j: int| 0 <= j < rows.len() ==> rows[j].post_id != posts[i].id)
            ==> post_responses_of(posts, users, rows)[i].tags == Seq::<Seq<char>>::empty(),
        post_responses_of(posts, users, rows)[i].tags.len() > 0 ==> exists|j: int|
            #![trigger rows[j]]
            is_last_row_with_id(rows, posts[i].id, j) && rows[j].tags == Some(
                post_responses_of(posts, users, rows)[i].tags,
            ),
{
    let id = posts[i].id;
    lemma_last_row(rows, id);
    assert forall|j: int|
        #![trigger rows[j]]
        is_last_row_with_id(rows, id, j) implies last_row_with_id(rows, id) == Some(rows[j]) by {
        match last_row_with_id(rows, id) {
            Some(r) => {
                let j2 = choose|j2: int|
                    0 <= j2 < rows.len() && rows[j2] == r && r.post_id == id && forall|k: int|
                        j2 < k < rows.len() ==> rows[k].post_id != id;
                if j2 < j {
                    assert(rows[j].post_id != id);
                } else if j < j2 {
                    assert(rows[j2].post_id != id);
                }
            },
            None => {
                assert(rows[j].post_id != id);
            },
        }
    }
    match last_row_with_id(rows, id) {
        Some(r) => {
            let j2 = choose|j2: int|
                0 <= j2 < rows.len() && rows[j2] == r && r.post_id == id && forall|k: int|
                    j2 < k < rows.len() ==> rows[k].post_id != id;
            assert(is_last_row_with_id(rows, id, j2));
            assert(rows[j2] == r);
        },
        None => {},
    }
}

/// The authors asked for are exactly those that the loaded posts name: each
/// id asked for is named by a loaded post, and each named id is asked for.
pub proof fn lemma_author_ids_are_named(posts: Seq<PostView>)
    ensures
        forall|k: int|
            0 <= k < creator_ids(posts).len() ==> exists|j: int|
                0 <= j < posts.len() && posts[j].created_by == Some(#[trigger] creator_ids(posts)[k]),
        forall|j: int|
            #![trigger posts[j]]
            0 <= j < posts.len() && posts[j].created_by is Some ==> creator_ids(posts).contains(
                posts[j].created_by.unwrap(),
            ),
        post_ids(posts).len() == posts.len(),
        forall|j: int| 0 <= j < posts.len() ==> #[trigger] post_ids(posts)[j] == posts[j].id,
    decreases posts.len(),
{
    if posts.len() > 0 {
        let init = posts.drop_last();
        lemma_author_ids_are_named(init);
        let last_ids: Seq<i32> = match posts.last().created_by {
            Some(id) => seq![id],
            None => Seq::empty(),
        };
        let ids = creator_ids(posts);
        assert(ids == creator_ids(init) + last_ids);
        assert forall|k: int| 0 <= k < ids.len() implies exists|j: int|
            0 <= j < posts.len() && posts[j].created_by == Some(#[trigger] ids[k]) by {
            if k < creator_ids(init).len() {
                assert(ids[k] == creator_ids(init)[k]);
                let j = choose|j: int|
                    0 <= j < init.len() && init[j].created_by == Some(creator_ids(init)[k]);
                assert(posts[j] == init[j]);
            } else {
                assert(posts[posts.len() - 1] == posts.last());
            }
        }
        assert forall|j: int|
            #![trigger posts[j]]
            0 <= j < posts.len() && posts[j].created_by is Some implies ids.contains(
            posts[j].created_by.unwrap(),
        ) by {
            let uid = posts[j].created_by.unwrap();
            if j < init.len() {
                assert(posts[j] == init[j]);
                assert(creator_ids(init).contains(uid));
                let k = choose|k: int| 0 <= k < creator_ids(init).len() && creator_ids(init)[k] == uid;
                assert(ids[k] == uid);
            } else {
                assert(posts[j] == posts.last());
                assert(ids[ids.len() - 1] == uid);
            }
        }
    }
}

} // verus!
