//! Creating a post, as a conversation with the database.
//!
//! `create_post` takes the client's request and answers with the first
//! database action to perform; each outcome of an action is handed to
//! `CreatePost::step`, which answers with the next action. The post is
//! inserted first, then each of its tags in the order of the request, then
//! its author is looked up, and the conversation ends with the post as the
//! client sees it, or with a failure when an insert failed.
use vstd::prelude::*;
use crate::models::{
    clone_strings, texts, CreatePostRequest, CreatePostRequestView, NewPost, NewPostTag,
    NewPostTagView, NewPostView, Post, PostView, User, UserView,
};
use crate::response_models::{post_response_of, PostResponse, PostResponseView};

verus! {

/// What the database is asked to do next, or how the creation ends.
pub enum CreatePostAction {
    /// Insert the post and hand back the stored row.
    InsertPost(NewPost),
    /// Insert one tag of the post.
    InsertTag(NewPostTag),
    /// Look up the user with this id.
    FindUser(i32),
    /// The creation is over; answer with this post.
    Respond(PostResponse),
    /// The creation is over and failed.
    Fail,
}

/// How the database answered the last action.
pub enum CreatePostEvent {
    /// The post was inserted; this is the stored row.
    PostInserted(Post),
    /// The tag was inserted.
    TagInserted,
    /// The author lookup found this user, or none.
    UserFound(Option<User>),
    /// The database reported an error.
    QueryFailed,
}

pub enum CreatePostActionView {
    InsertPost(NewPostView),
    InsertTag(NewPostTagView),
    FindUser(i32),
    Respond(PostResponseView),
    Fail,
}

pub enum CreatePostEventView {
    PostInserted(PostView),
    TagInserted,
    UserFound(Option<UserView>),
    QueryFailed,
}

/// The view of an optional user.
pub open spec fn user_opt_view(u: Option<User>) -> Option<UserView> {
    match u {
        Some(u) => Some(u@),
        None => None,
    }
}

impl View for CreatePostAction {
    type V = CreatePostActionView;

    open spec fn view(&self) -> CreatePostActionView {
        match self {
            CreatePostAction::InsertPost(p) => CreatePostActionView::InsertPost(p@),
            CreatePostAction::InsertTag(t) => CreatePostActionView::InsertTag(t@),
            CreatePostAction::FindUser(id) => CreatePostActionView::FindUser(*id),
            CreatePostAction::Respond(r) => CreatePostActionView::Respond(r@),
            CreatePostAction::Fail => CreatePostActionView::Fail,
        }
    }
}

impl View for CreatePostEvent {
    type V = CreatePostEventView;

    open spec fn view(&self) -> CreatePostEventView {
        match self {
            CreatePostEvent::PostInserted(p) => CreatePostEventView::PostInserted(p@),
            CreatePostEvent::TagInserted => CreatePostEventView::TagInserted,
            CreatePostEvent::UserFound(u) => CreatePostEventView::UserFound(user_opt_view(*u)),
            CreatePostEvent::QueryFailed => CreatePostEventView::QueryFailed,
        }
    }
}

/// Where a creation stands.
pub enum CreateStage {
    /// The insert of the post is under way.
    AwaitPost,
    /// The insert of the tag at `index` is under way.
    AwaitTag { post: Post, index: usize },
    /// The lookup of the author is under way.
    AwaitUser { post: Post },
    /// The creation is over.
    Done,
}

pub enum CreateStageView {
    AwaitPost,
    AwaitTag { post: PostView, index: nat },
    AwaitUser { post: PostView },
    Done,
}

/// A creation of a post under way: the tags of the request and the stage.
pub struct CreatePost {
    tags: Vec<String>,
    stage: CreateStage,
}

pub struct CreatePostView {
    pub tags: Seq<Seq<char>>,
    pub stage: CreateStageView,
}

impl View for CreatePost {
    type V = CreatePostView;

    closed spec fn view(&self) -> CreatePostView {
        CreatePostView {
            tags: texts(self.tags@),
            stage: match self.stage {
                CreateStage::AwaitPost => CreateStageView::AwaitPost,
                CreateStage::AwaitTag { post, index } => CreateStageView::AwaitTag {
                    post: post@,
                    index: index as nat,
                },
                CreateStage::AwaitUser { post } => CreateStageView::AwaitUser { post: post@ },
                CreateStage::Done => CreateStageView::Done,
            },
        }
    }
}

/// The row inserted for a request: its author, title and body.
pub open spec fn new_post_of(req: CreatePostRequestView) -> NewPostView {
    NewPostView { created_by: req.created_by, title: req.title, body: req.body }
}

/// A creation starts by inserting the post.
pub open spec fn create_post_start(req: CreatePostRequestView) -> (
    CreatePostView,
    CreatePostActionView,
) {
    (
        CreatePostView { tags: req.tags, stage: CreateStageView::AwaitPost },
        CreatePostActionView::InsertPost(new_post_of(req)),
    )
}

/// Once the tags are stored: look up the author if the post has one, else answer.
pub open spec fn after_tags(tags: Seq<Seq<char>>, post: PostView) -> (
    CreatePostView,
    CreatePostActionView,
) {
    match post.created_by {
        Some(uid) => (
            CreatePostView { tags, stage: CreateStageView::AwaitUser { post } },
            CreatePostActionView::FindUser(uid),
        ),
        None => (
            CreatePostView { tags, stage: CreateStageView::Done },
            CreatePostActionView::Respond(post_response_of(post, None, tags)),
        ),
    }
}

/// Insert the tag at `index` when there is one, else go on past the tags.
pub open spec fn tag_from(tags: Seq<Seq<char>>, post: PostView, index: nat) -> (
    CreatePostView,
    CreatePostActionView,
) {
    if index < tags.len() {
        (
            CreatePostView { tags, stage: CreateStageView::AwaitTag { post, index } },
            CreatePostActionView::InsertTag(NewPostTagView { post_id: post.id, tag: tags[index as int] }),
        )
    } else {
        after_tags(tags, post)
    }
}

/// The next stage and action after the database answered `e` in stage `s`.
/// A failed insert ends the creation in failure; a failed author lookup
/// counts as no author found; an answer that does not fit the stage, or
/// any answer once the creation is over, ends it in failure.
pub open spec fn create_post_step(s: CreatePostView, e: CreatePostEventView) -> (
    CreatePostView,
    CreatePostActionView,
) {
    let done = CreatePostView { tags: s.tags, stage: CreateStageView::Done };
    match s.stage {
        CreateStageView::AwaitPost => match e {
            CreatePostEventView::PostInserted(p) => tag_from(s.tags, p, 0),
            _ => (done, CreatePostActionView::Fail),
        },
        CreateStageView::AwaitTag { post, index } => match e {
            CreatePostEventView::TagInserted => tag_from(s.tags, post, index + 1),
            _ => (done, CreatePostActionView::Fail),
        },
        CreateStageView::AwaitUser { post } => match e {
            CreatePostEventView::UserFound(u) => (
                done,
                CreatePostActionView::Respond(post_response_of(post, u, s.tags)),
            ),
            CreatePostEventView::QueryFailed => (
                done,
                CreatePostActionView::Respond(post_response_of(post, None, s.tags)),
            ),
            _ => (done, CreatePostActionView::Fail),
        },
        CreateStageView::Done => (done, CreatePostActionView::Fail),
    }
}

/// Starts the creation of the post that `request` describes: the first
/// action inserts the post with the request's author, title and body.
pub fn create_post(request: CreatePostRequest) -> (r: (CreatePost, CreatePostAction))
    ensures
        (r.0@, r.1@) == create_post_start(request@),
        r.1 matches CreatePostAction::InsertPost(p) && p.created_by == request.created_by
            && p.title@ == request.title@ && p.body@ == request.body@,
{
    let CreatePostRequest { created_by, title, body, tags } = request;
    let new_post = NewPost { created_by, title, body };
    (CreatePost { tags, stage: CreateStage::AwaitPost }, CreatePostAction::InsertPost(new_post))
}

impl CreatePost {
    fn after_tags(tags: Vec<String>, post: Post) -> (r: (CreatePost, CreatePostAction))
        ensures
            (r.0@, r.1@) == after_tags(texts(tags@), post@),
    {
        match post.created_by {
            Some(uid) => (
                CreatePost { tags, stage: CreateStage::AwaitUser { post } },
                CreatePostAction::FindUser(uid),
            ),
            None => {
                let copy = clone_strings(&tags);
                let resp = PostResponse::from_post(&post, None, copy);
                (CreatePost { tags, stage: CreateStage::Done }, CreatePostAction::Respond(resp))
            },
        }
    }

    fn tag_from(tags: Vec<String>, post: Post, index: usize) -> (r: (CreatePost, CreatePostAction))
        ensures
            (r.0@, r.1@) == tag_from(texts(tags@), post@, index as nat),
    {
        if index < tags.len() {
            let tag = NewPostTag { post_id: post.id, tag: tags[index].clone() };
            (
                CreatePost { tags, stage: CreateStage::AwaitTag { post, index } },
                CreatePostAction::InsertTag(tag),
            )
        } else {
            Self::after_tags(tags, post)
        }
    }

    /// Hands the database's answer to the last action to the creation, and
    /// returns the creation's next stage and action.
    pub fn step(self, event: CreatePostEvent) -> (r: (CreatePost, CreatePostAction))
        ensures
            (r.0@, r.1@) == create_post_step(self@, event@),
    {
        let CreatePost { tags, stage } = self;
        match stage {
            CreateStage::AwaitPost => match event {
                CreatePostEvent::PostInserted(p) => Self::tag_from(tags, p, 0),
                _ => (CreatePost { tags, stage: CreateStage::Done }, CreatePostAction::Fail),
            },
            CreateStage::AwaitTag { post, index } => match event {
                CreatePostEvent::TagInserted => {
                    if index < tags.len() {
                        Self::tag_from(tags, post, index + 1)
                    } else {
                        Self::after_tags(tags, post)
                    }
                },
                _ => (CreatePost { tags, stage: CreateStage::Done }, CreatePostAction::Fail),
            },
            CreateStage::AwaitUser { post } => match event {
                CreatePostEvent::UserFound(u) => {
                    let copy = clone_strings(&tags);
                    let resp = match &u {
                        Some(user) => PostResponse::from_post(&post, Some(user), copy),
                        None => PostResponse::from_post(&post, None, copy),
                    };
                    (CreatePost { tags, stage: CreateStage::Done }, CreatePostAction::Respond(resp))
                },
                CreatePostEvent::QueryFailed => {
                    let copy = clone_strings(&tags);
                    let resp = PostResponse::from_post(&post, None, copy);
                    (CreatePost { tags, stage: CreateStage::Done }, CreatePostAction::Respond(resp))
                },
                _ => (CreatePost { tags, stage: CreateStage::Done }, CreatePostAction::Fail),
            },
            CreateStage::Done => (CreatePost { tags, stage: CreateStage::Done }, CreatePostAction::Fail),
        }
    }
}

/// The last stage and the actions produced when the database gives the
/// answers `events`, one after the other, from stage `s`.
pub open spec fn create_post_run(s: CreatePostView, events: Seq<CreatePostEventView>) -> (
    CreatePostView,
    Seq<CreatePostActionView>,
)
    decreases events.len(),
{
    if events.len() == 0 {
        (s, Seq::empty())
    } else {
        let next = create_post_step(s, events[0]);
        let rest = create_post_run(next.0, events.drop_first());
        (rest.0, seq![next.1] + rest.1)
    }
}

/// `n` answers that a tag was stored.
pub open spec fn tags_stored(n: nat) -> Seq<CreatePostEventView> {
    Seq::new(n, |i: int| CreatePostEventView::TagInserted)
}

/// The answers of a database on which every query succeeds: the post is
/// stored as `post`, each of the `tag_count` tags is stored, and the lookup
/// of the author, when the stored post has one, finds `author`.
pub open spec fn successful_answers(tag_count: nat, post: PostView, author: Option<UserView>) -> Seq<
    CreatePostEventView,
> {
    seq![CreatePostEventView::PostInserted(post)] + tags_stored(tag_count) + if post.created_by is Some {
        seq![CreatePostEventView::UserFound(author)]
    } else {
        Seq::empty()
    }
}

/// The insert of the tag at `i` for the stored `post`.
pub open spec fn tag_insert(tags: Seq<Seq<char>>, post: PostView, i: int) -> CreatePostActionView {
    CreatePostActionView::InsertTag(NewPostTagView { post_id: post.id, tag: tags[i] })
}

/// The actions that follow the insert of the post when every query succeeds.
pub open spec fn successful_actions(
    tags: Seq<Seq<char>>,
    post: PostView,
    author: Option<UserView>,
) -> Seq<CreatePostActionView> {
    Seq::new(tags.len(), |i: int| tag_insert(tags, post, i)) + match post.created_by {
        Some(uid) => seq![
            CreatePostActionView::FindUser(uid),
            CreatePostActionView::Respond(post_response_of(post, author, tags)),
        ],
        None => seq![CreatePostActionView::Respond(post_response_of(post, None, tags))],
    }
}

proof fn lemma_tag_loop(tags: Seq<Seq<char>>, post: PostView, k: nat, tail: Seq<CreatePostEventView>)
    requires
        k < tags.len(),
    ensures
        ({
            let fin = after_tags(tags, post);
            let rest = create_post_run(fin.0, tail);
            create_post_run(
                CreatePostView { tags, stage: CreateStageView::AwaitTag { post, index: k } },
                tags_stored((tags.len() - k) as nat) + tail,
            ) == (
                rest.0,
                Seq::new((tags.len() - k - 1) as nat, |i: int| tag_insert(tags, post, k + 1 + i))
                    + seq![fin.1] + rest.1,
            )
        }),
    decreases tags.len() - k,
{
    let fin = after_tags(tags, post);
    let rest = create_post_run(fin.0, tail);
    let events = tags_stored((tags.len() - k) as nat) + tail;
    assert(events[0] == CreatePostEventView::TagInserted);
    assert(events.drop_first() =~= tags_stored((tags.len() - k - 1) as nat) + tail);
    if k + 1 < tags.len() {
        lemma_tag_loop(tags, post, k + 1, tail);
        let later = Seq::new(
            (tags.len() - k - 2) as nat,
            |i: int| tag_insert(tags, post, k + 2 + i),
        );
        let all = Seq::new((tags.len() - k - 1) as nat, |i: int| tag_insert(tags, post, k + 1 + i));
        assert(seq![tag_insert(tags, post, (k + 1) as int)] + (later + seq![fin.1] + rest.1) =~= all
            + seq![fin.1] + rest.1);
    } else {
        assert(tags_stored(0) + tail =~= tail);
        let none = Seq::new(0, |i: int| tag_insert(tags, post, k + 1 + i));
        assert(none + seq![fin.1] + rest.1 =~= seq![fin.1] + rest.1);
    }
}

/// A creation on which every query succeeds first inserts the post built
/// from the request's author, title and body; then inserts each tag of the
/// request, in the request's order, under the id of the stored post; then
/// looks up the stored post's author, if it has one; and answers with the
/// stored post, the author found, and exactly the request's tags.
pub proof fn lemma_create_post_succeeds(
    req: CreatePostRequestView,
    post: PostView,
    author: Option<UserView>,
)
    ensures
        create_post_start(req).1 == CreatePostActionView::InsertPost(new_post_of(req)),
        create_post_run(create_post_start(req).0, successful_answers(req.tags.len(), post, author))
            == (
            CreatePostView { tags: req.tags, stage: CreateStageView::Done },
            successful_actions(req.tags, post, author),
        ),
{
    let tags = req.tags;
    let s0 = create_post_start(req).0;
    let tail: Seq<CreatePostEventView> = if post.created_by is Some {
        seq![CreatePostEventView::UserFound(author)]
    } else {
        Seq::empty()
    };
    let events = successful_answers(tags.len(), post, author);
    assert(events[0] == CreatePostEventView::PostInserted(post));
    assert(events.drop_first() =~= tags_stored(tags.len()) + tail);
    let fin = after_tags(tags, post);
    let rest = create_post_run(fin.0, tail);
    // after the tags: the lookup of the author, when there is one, then the answer
    let done = CreatePostView { tags, stage: CreateStageView::Done };
    assert(create_post_run(done, Seq::empty()) == (done, Seq::<CreatePostActionView>::empty()));
    if post.created_by is Some {
        assert(tail[0] == CreatePostEventView::UserFound(author));
        assert(tail.drop_first() =~= Seq::<CreatePostEventView>::empty());
        assert(rest.1 =~= seq![CreatePostActionView::Respond(post_response_of(post, author, tags))]);
    } else {
        assert(tail =~= Seq::<CreatePostEventView>::empty());
    }
    let finish: Seq<CreatePostActionView> = match post.created_by {
        Some(uid) => seq![
            CreatePostActionView::FindUser(uid),
            CreatePostActionView::Respond(post_response_of(post, author, tags)),
        ],
        None => seq![CreatePostActionView::Respond(post_response_of(post, None, tags))],
    };
    assert(seq![fin.1] + rest.1 =~= finish);
    assert(rest.0 == CreatePostView { tags, stage: CreateStageView::Done });
    if tags.len() == 0 {
        assert(tags_stored(0) + tail =~= tail);
        assert(Seq::new(tags.len(), |i: int| tag_insert(tags, post, i)) + finish =~= finish);
    } else {
        lemma_tag_loop(tags, post, 0, tail);
        let later = Seq::new((tags.len() - 1) as nat, |i: int| tag_insert(tags, post, 0 + 1 + i));
        assert(seq![tag_insert(tags, post, 0)] + (later + seq![fin.1] + rest.1) =~= Seq::new(
            tags.len(),
            |i: int| tag_insert(tags, post, i),
        ) + finish);
    }
}

/// Once a creation is over, every further answer leaves it over and fails.
pub proof fn lemma_create_post_done_stays_done(s: CreatePostView, e: CreatePostEventView)
    requires
        s.stage is Done,
    ensures
        create_post_step(s, e) == (s, CreatePostActionView::Fail),
{
}

/// A failed insert, of the post or of a tag, ends the creation in failure.
pub proof fn lemma_create_post_failed_insert(s: CreatePostView)
    requires
        s.stage is AwaitPost || s.stage is AwaitTag,
    ensures
        create_post_step(s, CreatePostEventView::QueryFailed) == (
            CreatePostView { tags: s.tags, stage: CreateStageView::Done },
            CreatePostActionView::Fail,
        ),
{
}

/// A failed lookup of the author does not fail the creation: the post is
/// answered without an author.
pub proof fn lemma_create_post_failed_lookup(s: CreatePostView, post: PostView)
    requires
        s.stage == (CreateStageView::AwaitUser { post }),
    ensures
        create_post_step(s, CreatePostEventView::QueryFailed).1 == CreatePostActionView::Respond(
            post_response_of(post, None, s.tags),
        ),
{
}

/// Every step keeps the tags of the request.
pub proof fn lemma_create_post_keeps_tags(s: CreatePostView, e: CreatePostEventView)
    ensures
        create_post_step(s, e).0.tags == s.tags,
{
}

/// The creation inserts the request's author, title and body unchanged.
pub proof fn lemma_create_post_inserts_request(req: CreatePostRequestView)
    ensures
        create_post_start(req).1 == CreatePostActionView::InsertPost(
            NewPostView { created_by: req.created_by, title: req.title, body: req.body },
        ),
        create_post_start(req).0.tags == req.tags,
        create_post_start(req).0.stage is AwaitPost,
{
}

/// On a database where every query succeeds, the creation inserts, after
/// the post, the request's tags one by one, in order, each under the stored
/// post's id; then looks up the author that the stored post names, if any;
/// and answers with the stored post's id, title and body, the request's
/// tags, and the user found, field by field (no author when the stored post
/// names none or none was found).
pub proof fn lemma_created_post_answer(req: CreatePostRequestView, post: PostView, author: Option<UserView>)
    ensures
        ({
            let acts = create_post_run(
                create_post_start(req).0,
                successful_answers(req.tags.len(), post, author),
            ).1;
            let n = req.tags.len() as int;
            &&& acts.len() == n + if post.created_by is Some { 2int } else { 1int }
            &&& forall|k: int|
                0 <= k < n ==> #[trigger] acts[k] == CreatePostActionView::InsertTag(
                    NewPostTagView { post_id: post.id, tag: req.tags[k] },
                )
            &&& post.created_by matches Some(uid) ==> acts[n] == CreatePostActionView::FindUser(uid)
            &&& acts.last() matches CreatePostActionView::Respond(r) && r.id == post.id && r.title
                == post.title && r.body == post.body && r.tags == req.tags && (r.created_by is Some
                <==> (post.created_by is Some && author is Some)) && (r.created_by matches Some(a)
                ==> author matches Some(u) && a.user_id == u.id && a.username == u.username
                && a.first_name == u.first_name && a.last_name == u.last_name)
        }),
{
    lemma_create_post_succeeds(req, post, author);
    let tags = req.tags;
    let acts = successful_actions(tags, post, author);
    let inserts = Seq::new(tags.len(), |i: int| tag_insert(tags, post, i));
    match post.created_by {
        Some(uid) => {
            let tail = seq![
                CreatePostActionView::FindUser(uid),
                CreatePostActionView::Respond(post_response_of(post, author, tags)),
            ];
            assert(acts == inserts + tail);
            assert(acts.last() == tail[1]);
            assert(acts[tags.len() as int] == tail[0]);
            assert forall|k: int| 0 <= k < tags.len() implies #[trigger] acts[k]
                == CreatePostActionView::InsertTag(NewPostTagView { post_id: post.id, tag: tags[k] }) by {
                assert(acts[k] == inserts[k]);
            }
        },
        None => {
            let tail = seq![CreatePostActionView::Respond(post_response_of(post, None, tags))];
            assert(acts == inserts + tail);
            assert(acts.last() == tail[0]);
            assert forall|k: int| 0 <= k < tags.len() implies #[trigger] acts[k]
                == CreatePostActionView::InsertTag(NewPostTagView { post_id: post.id, tag: tags[k] }) by {
                assert(acts[k] == inserts[k]);
            }
        },
    }
}

} // verus!
