//! The records the blog stores: users, posts and the tags of a post, as they
//! are read from and written to the database, and the request that creates a
//! post.
use vstd::prelude::*;

verus! {

/// The text of each string of a sequence.
pub open spec fn texts(v: Seq<String>) -> Seq<Seq<char>> {
    v.map_values(|s: String| s@)
}

/// A stored user, as the `users` table holds it.
pub struct User {
    pub id: i32,
    pub username: String,
    pub first_name: String,
    pub last_name: String,
}

pub struct UserView {
    pub id: i32,
    pub username: Seq<char>,
    pub first_name: Seq<char>,
    pub last_name: Seq<char>,
}

impl View for User {
    type V = UserView;

    open spec fn view(&self) -> UserView {
        UserView {
            id: self.id,
            username: self.username@,
            first_name: self.first_name@,
            last_name: self.last_name@,
        }
    }
}

/// The columns of a user that is about to be inserted; the database picks its id.
pub struct NewUser {
    pub username: String,
    pub first_name: String,
    pub last_name: String,
}

pub struct NewUserView {
    pub username: Seq<char>,
    pub first_name: Seq<char>,
    pub last_name: Seq<char>,
}

impl View for NewUser {
    type V = NewUserView;

    open spec fn view(&self) -> NewUserView {
        NewUserView {
            username: self.username@,
            first_name: self.first_name@,
            last_name: self.last_name@,
        }
    }
}

/// A stored post, as the `posts` table holds it. Its author may be unknown.
pub struct Post {
    pub id: i32,
    pub created_by: Option<i32>,
    pub title: String,
    pub body: String,
}

pub struct PostView {
    pub id: i32,
    pub created_by: Option<i32>,
    pub title: Seq<char>,
    pub body: Seq<char>,
}

impl View for Post {
    type V = PostView;

    open spec fn view(&self) -> PostView {
        PostView { id: self.id, created_by: self.created_by, title: self.title@, body: self.body@ }
    }
}

/// The columns of a post that is about to be inserted; the database picks its id.
pub struct NewPost {
    pub created_by: i32,
    pub title: String,
    pub body: String,
}

pub struct NewPostView {
    pub created_by: i32,
    pub title: Seq<char>,
    pub body: Seq<char>,
}

impl View for NewPost {
    type V = NewPostView;

    open spec fn view(&self) -> NewPostView {
        NewPostView { created_by: self.created_by, title: self.title@, body: self.body@ }
    }
}

/// One row of the `posts_tags` table: a tag attached to a post.
pub struct NewPostTag {
    pub post_id: i32,
    pub tag: String,
}

pub struct NewPostTagView {
    pub post_id: i32,
    pub tag: Seq<char>,
}

impl View for NewPostTag {
    type V = NewPostTagView;

    open spec fn view(&self) -> NewPostTagView {
        NewPostTagView { post_id: self.post_id, tag: self.tag@ }
    }
}

/// What a client sends to create a post.
pub struct CreatePostRequest {
    pub created_by: i32,
    pub title: String,
    pub body: String,
    pub tags: Vec<String>,
}

pub struct CreatePostRequestView {
    pub created_by: i32,
    pub title: Seq<char>,
    pub body: Seq<char>,
    pub tags: Seq<Seq<char>>,
}

impl View for CreatePostRequest {
    type V = CreatePostRequestView;

    open spec fn view(&self) -> CreatePostRequestView {
        CreatePostRequestView {
            created_by: self.created_by,
            title: self.title@,
            body: self.body@,
            tags: texts(self.tags@),
        }
    }
}

/// The tags of one post, gathered by the database into one row; the
/// aggregate is absent when the database found nothing to gather.
pub struct PostTags {
    pub post_id: i32,
    pub tags: Option<Vec<String>>,
}

pub struct PostTagsView {
    pub post_id: i32,
    pub tags: Option<Seq<Seq<char>>>,
}

impl View for PostTags {
    type V = PostTagsView;

    open spec fn view(&self) -> PostTagsView {
        PostTagsView {
            post_id: self.post_id,
            tags: match self.tags {
                Some(t) => Some(texts(t@)),
                None => None,
            },
        }
    }
}

/// A copy of each string of `v`, in order.
pub fn clone_strings(v: &Vec<String>) -> (r: Vec<String>)
    ensures
        r@ == v@,
{
    let mut r: Vec<String> = Vec::new();
    let mut i: usize = 0;
    while i < v.len()
        invariant
            i <= v.len(),
            r@ == v@.take(i as int),
        decreases v.len() - i,
    {
        r.push(v[i].clone());
        i = i + 1;
        assert(r@ =~= v@.take(i as int));
    }
    assert(v@.take(v.len() as int) =~= v@);
    r
}

} // verus!
