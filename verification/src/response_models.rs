//! What the API answers: users and posts as clients see them, pages of
//! posts with their pagination data, and the envelope around every answer.
use vstd::prelude::*;
use crate::models::{texts, Post, PostView, User, UserView};

verus! {

/// A user as it appears inside a post.
pub struct UserResponse {
    pub user_id: i32,
    pub username: String,
    pub first_name: String,
    pub last_name: String,
}

pub struct UserResponseView {
    pub user_id: i32,
    pub username: Seq<char>,
    pub first_name: Seq<char>,
    pub last_name: Seq<char>,
}

impl View for UserResponse {
    type V = UserResponseView;

    open spec fn view(&self) -> UserResponseView {
        UserResponseView {
            user_id: self.user_id,
            username: self.username@,
            first_name: self.first_name@,
            last_name: self.last_name@,
        }
    }
}

/// A post as a client sees it: with its author, when known, and its tags.
pub struct PostResponse {
    pub id: i32,
    pub created_by: Option<UserResponse>,
    pub title: String,
    pub body: String,
    pub tags: Vec<String>,
}

pub struct PostResponseView {
    pub id: i32,
    pub created_by: Option<UserResponseView>,
    pub title: Seq<char>,
    pub body: Seq<char>,
    pub tags: Seq<Seq<char>>,
}

impl View for PostResponse {
    type V = PostResponseView;

    open spec fn view(&self) -> PostResponseView {
        PostResponseView {
            id: self.id,
            created_by: match self.created_by {
                Some(u) => Some(u@),
                None => None,
            },
            title: self.title@,
            body: self.body@,
            tags: texts(self.tags@),
        }
    }
}

/// Where a page lies in the whole listing.
#[derive(Clone, Copy)]
pub struct Meta {
    pub current_page: i64,
    pub per_page: i64,
    pub from: i64,
    pub to: i64,
    pub total_pages: i64,
    pub total_docs: i64,
}

/// One page of a listing.
pub struct PaginatedResponse<T> {
    pub records: Vec<T>,
    pub meta: Meta,
}

pub struct PaginatedView<V> {
    pub records: Seq<V>,
    pub meta: Meta,
}

impl<T: View> View for PaginatedResponse<T> {
    type V = PaginatedView<T::V>;

    open spec fn view(&self) -> PaginatedView<T::V> {
        PaginatedView { records: self.records@.map_values(|r: T| r@), meta: self.meta }
    }
}

/// The payload of an answer.
pub enum ResponseBody {
    Message(String),
    User(User),
    Post(PostResponse),
    Posts(PaginatedResponse<PostResponse>),
}

pub enum ResponseBodyView {
    Message(Seq<char>),
    User(UserView),
    Post(PostResponseView),
    Posts(PaginatedView<PostResponseView>),
}

impl View for ResponseBody {
    type V = ResponseBodyView;

    open spec fn view(&self) -> ResponseBodyView {
        match self {
            ResponseBody::Message(m) => ResponseBodyView::Message(m@),
            ResponseBody::User(u) => ResponseBodyView::User(u@),
            ResponseBody::Post(p) => ResponseBodyView::Post(p@),
            ResponseBody::Posts(p) => ResponseBodyView::Posts(p@),
        }
    }
}

/// Every answer of the API wraps its payload in this envelope.
pub struct Response {
    pub body: ResponseBody,
}

impl View for Response {
    type V = ResponseBodyView;

    open spec fn view(&self) -> ResponseBodyView {
        self.body@
    }
}

/// How a stored user is shown inside a post.
pub open spec fn user_response_of(u: UserView) -> UserResponseView {
    UserResponseView {
        user_id: u.id,
        username: u.username,
        first_name: u.first_name,
        last_name: u.last_name,
    }
}

/// How a stored post is shown, given its author (when found) and its tags.
pub open spec fn post_response_of(
    p: PostView,
    author: Option<UserView>,
    tags: Seq<Seq<char>>,
) -> PostResponseView {
    PostResponseView {
        id: p.id,
        created_by: match author {
            Some(u) => Some(user_response_of(u)),
            None => None,
        },
        title: p.title,
        body: p.body,
        tags: tags,
    }
}

impl UserResponse {
    /// The user `u` as shown inside a post.
    pub fn from_user(u: &User) -> (r: UserResponse)
        ensures
            r@ == user_response_of(u@),
    {
        UserResponse {
            user_id: u.id,
            username: u.username.clone(),
            first_name: u.first_name.clone(),
            last_name: u.last_name.clone(),
        }
    }
}

impl PostResponse {
    /// The post `p` as shown to clients, with its author when known and its tags.
    pub fn from_post(p: &Post, author: Option<&User>, tags: Vec<String>) -> (r: PostResponse)
        ensures
            r@ == post_response_of(
                p@,
                match author {
                    Some(u) => Some(u@),
                    None => None,
                },
                texts(tags@),
            ),
            r.id == p.id,
            r.title@ == p.title@,
            r.body@ == p.body@,
            r.tags@ == tags@,
            r.created_by is Some <==> author is Some,
    {
        let created_by = match author {
            Some(u) => Some(UserResponse::from_user(u)),
            None => None,
        };
        PostResponse { id: p.id, created_by, title: p.title.clone(), body: p.body.clone(), tags }
    }
}

/// A post is shown with its own id, title and body, with the tags given,
/// and with the author given, field by field, or none without one.
pub proof fn lemma_post_shown_as_stored(p: PostView, author: Option<UserView>, tags: Seq<Seq<char>>)
    ensures
        post_response_of(p, author, tags).id == p.id,
        post_response_of(p, author, tags).title == p.title,
        post_response_of(p, author, tags).body == p.body,
        post_response_of(p, author, tags).tags == tags,
        post_response_of(p, author, tags).created_by is Some <==> author is Some,
        author matches Some(u) ==> post_response_of(p, author, tags).created_by == Some(
            UserResponseView {
                user_id: u.id,
                username: u.username,
                first_name: u.first_name,
                last_name: u.last_name,
            },
        ),
{
}

} // verus!
