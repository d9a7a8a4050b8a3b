use blog::models::{CreatePostRequest, NewPost, NewPostTag, NewUser, Post, PostTags, User};
use blog::post::create::{create_post, CreatePostAction, CreatePostEvent};
use blog::post::read::{list_posts, ListPostsAction, ListPostsEvent};
use blog::response_models::PostResponse;

/// An in-memory stand-in for the database, answering the actions of the
/// creation and listing conversations as the SQL queries would.
struct FakeDb {
    users: Vec<User>,
    posts: Vec<Post>,
    tags: Vec<(i32, String)>,
}

fn ilike(pattern: &str, text: &str) -> bool {
    let inner = pattern.trim_start_matches('%').trim_end_matches('%');
    text.to_lowercase().contains(&inner.to_lowercase())
}

impl FakeDb {
    fn new() -> FakeDb {
        FakeDb { users: Vec::new(), posts: Vec::new(), tags: Vec::new() }
    }

    fn create_user(&mut self, new_user: NewUser) -> User {
        let id = self.users.len() as i32 + 1;
        let user = User {
            id,
            username: new_user.username,
            first_name: new_user.first_name,
            last_name: new_user.last_name,
        };
        self.users.push(copy_user(&user));
        user
    }

    fn insert_post(&mut self, p: NewPost) -> Post {
        let id = self.posts.len() as i32 + 1;
        let post = Post { id, created_by: Some(p.created_by), title: p.title, body: p.body };
        self.posts.push(Post {
            id,
            created_by: post.created_by,
            title: post.title.clone(),
            body: post.body.clone(),
        });
        post
    }

    fn insert_tag(&mut self, t: NewPostTag) -> bool {
        if self.tags.iter().any(|(p, tag)| *p == t.post_id && *tag == t.tag) {
            return false;
        }
        self.tags.push((t.post_id, t.tag));
        true
    }

    fn find_user(&self, id: i32) -> Option<User> {
        self.users.iter().find(|u| u.id == id).map(copy_user)
    }

    fn matching(&self, pattern: &Option<String>) -> Vec<&Post> {
        self.posts
            .iter()
            .filter(|p| match pattern {
                Some(pat) => ilike(pat, &p.title) || ilike(pat, &p.body),
                None => true,
            })
            .collect()
    }

    fn run_create(&mut self, request: CreatePostRequest) -> (Vec<String>, Result<PostResponse, ()>) {
        let mut log = Vec::new();
        let (mut state, mut action) = create_post(request);
        loop {
            let event = match action {
                CreatePostAction::InsertPost(p) => {
                    log.push("insert post".to_string());
                    CreatePostEvent::PostInserted(self.insert_post(p))
                }
                CreatePostAction::InsertTag(t) => {
                    log.push(format!("insert tag {} {}", t.post_id, t.tag));
                    if self.insert_tag(t) {
                        CreatePostEvent::TagInserted
                    } else {
                        CreatePostEvent::QueryFailed
                    }
                }
                CreatePostAction::FindUser(id) => {
                    log.push(format!("find user {}", id));
                    CreatePostEvent::UserFound(self.find_user(id))
                }
                CreatePostAction::Respond(r) => return (log, Ok(r)),
                CreatePostAction::Fail => return (log, Err(())),
            };
            let next = state.step(event);
            state = next.0;
            action = next.1;
        }
    }

    fn run_list(
        &self,
        page: i64,
        limit: i64,
        search: Option<String>,
    ) -> (Vec<String>, Result<(Vec<PostResponse>, i64), ()>) {
        let mut log = Vec::new();
        let (mut state, mut action) = list_posts(page, limit, search);
        loop {
            let event = match action {
                ListPostsAction::CountPosts { pattern } => {
                    log.push(format!("count {:?}", pattern));
                    ListPostsEvent::Counted(self.matching(&pattern).len() as i64)
                }
                ListPostsAction::LoadPosts { pattern, limit, offset } => {
                    log.push(format!("load {:?} {} {}", pattern, limit, offset));
                    let mut found = self.matching(&pattern);
                    found.sort_by(|a, b| b.id.cmp(&a.id));
                    let page: Vec<Post> = found
                        .into_iter()
                        .skip(offset as usize)
                        .take(limit as usize)
                        .map(|p| Post {
                            id: p.id,
                            created_by: p.created_by,
                            title: p.title.clone(),
                            body: p.body.clone(),
                        })
                        .collect();
                    ListPostsEvent::PostsLoaded(page)
                }
                ListPostsAction::LoadUsers { user_ids } => {
                    log.push(format!("users {:?}", user_ids));
                    ListPostsEvent::UsersLoaded(
                        self.users.iter().filter(|u| user_ids.contains(&u.id)).map(copy_user).collect(),
                    )
                }
                ListPostsAction::LoadTags { post_ids } => {
                    log.push(format!("tags {:?}", post_ids));
                    let mut rows: Vec<PostTags> = Vec::new();
                    for id in &post_ids {
                        let tags: Vec<String> =
                            self.tags.iter().filter(|(p, _)| p == id).map(|(_, t)| t.clone()).collect();
                        if !tags.is_empty() {
                            rows.push(PostTags { post_id: *id, tags: Some(tags) });
                        }
                    }
                    ListPostsEvent::TagsLoaded(rows)
                }
                ListPostsAction::Respond { posts, total_count } => return (log, Ok((posts, total_count))),
                ListPostsAction::Fail => return (log, Err(())),
            };
            let next = state.step(event);
            state = next.0;
            action = next.1;
        }
    }
}

fn copy_user(u: &User) -> User {
    User {
        id: u.id,
        username: u.username.clone(),
        first_name: u.first_name.clone(),
        last_name: u.last_name.clone(),
    }
}

fn test_user() -> NewUser {
    NewUser {
        username: "testuser".to_string(),
        first_name: "Test".to_string(),
        last_name: "User".to_string(),
    }
}

#[test]
fn post_test_create_post_with_tags() {
    let mut db = FakeDb::new();
    let user = db.create_user(test_user());

    let input = CreatePostRequest {
        created_by: user.id,
        title: "Test Post".to_string(),
        body: "This is a test post".to_string(),
        tags: vec!["tag1".to_string(), "tag2".to_string()],
    };
    let post = db.run_create(input).1.unwrap();
    assert_eq!(post.title, "Test Post");
    assert_eq!(post.tags, vec!["tag1".to_string(), "tag2".to_string()]);
}

#[test]
fn post_test_list_posts() {
    let mut db = FakeDb::new();
    let user = db.create_user(test_user());

    let input = CreatePostRequest {
        created_by: user.id,
        title: "Test Post".to_string(),
        body: "This is a test post".to_string(),
        tags: vec!["tag1".to_string()],
    };
    db.run_create(input).1.unwrap();

    let (posts, total_count) = db.run_list(1, 10, None).1.unwrap();
    assert_eq!(total_count, 1);
    assert_eq!(posts.len(), 1);
    assert_eq!(posts[0].title, "Test Post");
    assert_eq!(posts[0].tags, vec!["tag1".to_string()]);
}

#[test]
fn post_test_list_posts_with_search() {
    let mut db = FakeDb::new();
    let user = db.create_user(test_user());

    let input1 = CreatePostRequest {
        created_by: user.id,
        title: "Test Post".to_string(),
        body: "This is a test post".to_string(),
        tags: vec!["tag1".to_string()],
    };
    let input2 = CreatePostRequest {
        created_by: user.id,
        title: "Another Post".to_string(),
        body: "Different content".to_string(),
        tags: vec!["tag2".to_string()],
    };
    db.run_create(input1).1.unwrap();
    db.run_create(input2).1.unwrap();

    let (posts, total_count) = db.run_list(1, 10, Some("test".to_string())).1.unwrap();
    assert_eq!(total_count, 1);
    assert_eq!(posts.len(), 1);
    assert_eq!(posts[0].title, "Test Post");
}

#[test]
fn create_post_issues_inserts_in_request_order() {
    let mut db = FakeDb::new();
    let user = db.create_user(test_user());
    let input = CreatePostRequest {
        created_by: user.id,
        title: "T".to_string(),
        body: "B".to_string(),
        tags: vec!["b".to_string(), "a".to_string(), "c".to_string()],
    };
    let (log, result) = db.run_create(input);
    assert_eq!(
        log,
        vec![
            "insert post".to_string(),
            "insert tag 1 b".to_string(),
            "insert tag 1 a".to_string(),
            "insert tag 1 c".to_string(),
            "find user 1".to_string(),
        ]
    );
    let post = result.unwrap();
    assert_eq!(post.id, 1);
    assert_eq!(post.body, "B");
    let author = post.created_by.unwrap();
    assert_eq!(author.user_id, 1);
    assert_eq!(author.username, "testuser");
    assert_eq!(author.first_name, "Test");
    assert_eq!(author.last_name, "User");
    assert_eq!(post.tags, vec!["b".to_string(), "a".to_string(), "c".to_string()]);
}

#[test]
fn create_post_without_tags_looks_up_author_directly() {
    let mut db = FakeDb::new();
    let user = db.create_user(test_user());
    let input = CreatePostRequest {
        created_by: user.id,
        title: "T".to_string(),
        body: "B".to_string(),
        tags: vec![],
    };
    let (log, result) = db.run_create(input);
    assert_eq!(log, vec!["insert post".to_string(), "find user 1".to_string()]);
    assert!(result.unwrap().tags.is_empty());
}

#[test]
fn create_post_with_unknown_author_has_no_author() {
    let mut db = FakeDb::new();
    let input = CreatePostRequest {
        created_by: 42,
        title: "T".to_string(),
        body: "B".to_string(),
        tags: vec!["x".to_string()],
    };
    let post = db.run_create(input).1.unwrap();
    assert!(post.created_by.is_none());
    assert_eq!(post.tags, vec!["x".to_string()]);
}

#[test]
fn create_post_fails_when_a_tag_insert_fails() {
    let mut db = FakeDb::new();
    let user = db.create_user(test_user());
    let input = CreatePostRequest {
        created_by: user.id,
        title: "T".to_string(),
        body: "B".to_string(),
        tags: vec!["dup".to_string(), "dup".to_string(), "other".to_string()],
    };
    let (log, result) = db.run_create(input);
    assert!(result.is_err());
    // nothing is asked of the database after the failed insert
    assert_eq!(
        log,
        vec![
            "insert post".to_string(),
            "insert tag 1 dup".to_string(),
            "insert tag 1 dup".to_string(),
        ]
    );
}

#[test]
fn create_post_fails_when_the_post_insert_fails() {
    let (mut state, action) = create_post(CreatePostRequest {
        created_by: 1,
        title: "T".to_string(),
        body: "B".to_string(),
        tags: vec!["x".to_string()],
    });
    match action {
        CreatePostAction::InsertPost(p) => {
            assert_eq!(p.created_by, 1);
            assert_eq!(p.title, "T");
            assert_eq!(p.body, "B");
        }
        _ => panic!("the first action inserts the post"),
    }
    let next = state.step(CreatePostEvent::QueryFailed);
    state = next.0;
    assert!(matches!(next.1, CreatePostAction::Fail));
    // once over, the creation stays over
    assert!(matches!(state.step(CreatePostEvent::TagInserted).1, CreatePostAction::Fail));
}

#[test]
fn create_post_failed_author_lookup_answers_without_author() {
    let (state, _) = create_post(CreatePostRequest {
        created_by: 7,
        title: "T".to_string(),
        body: "B".to_string(),
        tags: vec![],
    });
    let stored = Post { id: 3, created_by: Some(7), title: "T".to_string(), body: "B".to_string() };
    let (state, action) = state.step(CreatePostEvent::PostInserted(stored));
    assert!(matches!(action, CreatePostAction::FindUser(7)));
    let (_, action) = state.step(CreatePostEvent::QueryFailed);
    match action {
        CreatePostAction::Respond(p) => {
            assert_eq!(p.id, 3);
            assert!(p.created_by.is_none());
        }
        _ => panic!("a failed lookup still answers"),
    }
}

#[test]
fn create_post_stored_without_author_answers_at_once() {
    let (state, _) = create_post(CreatePostRequest {
        created_by: 7,
        title: "T".to_string(),
        body: "B".to_string(),
        tags: vec![],
    });
    let stored = Post { id: 3, created_by: None, title: "T".to_string(), body: "B".to_string() };
    let (_, action) = state.step(CreatePostEvent::PostInserted(stored));
    match action {
        CreatePostAction::Respond(p) => assert!(p.created_by.is_none()),
        _ => panic!("no author to look up"),
    }
}

#[test]
fn create_post_rejects_an_answer_out_of_turn() {
    let (state, _) = create_post(CreatePostRequest {
        created_by: 7,
        title: "T".to_string(),
        body: "B".to_string(),
        tags: vec![],
    });
    assert!(matches!(state.step(CreatePostEvent::TagInserted).1, CreatePostAction::Fail));
}

#[test]
fn list_posts_pages_newest_first() {
    let mut db = FakeDb::new();
    let user = db.create_user(test_user());
    for i in 1..=5 {
        db.run_create(CreatePostRequest {
            created_by: user.id,
            title: format!("Post {}", i),
            body: "body".to_string(),
            tags: vec![format!("t{}", i)],
        })
        .1
        .unwrap();
    }
    let (log, result) = db.run_list(2, 2, None);
    let (posts, total) = result.unwrap();
    assert_eq!(total, 5);
    assert_eq!(posts.len(), 2);
    assert_eq!(posts[0].title, "Post 3");
    assert_eq!(posts[1].title, "Post 2");
    assert_eq!(posts[0].tags, vec!["t3".to_string()]);
    assert_eq!(posts[0].created_by.as_ref().unwrap().username, "testuser");
    assert_eq!(
        log,
        vec![
            "count None".to_string(),
            "load None 2 2".to_string(),
            "users [1, 1]".to_string(),
            "tags [3, 2]".to_string(),
        ]
    );
}

#[test]
fn list_posts_counts_and_loads_with_one_pattern() {
    let db = FakeDb::new();
    let (log, result) = db.run_list(3, 10, Some("Rust".to_string()));
    let (posts, total) = result.unwrap();
    assert!(posts.is_empty());
    assert_eq!(total, 0);
    assert_eq!(log[0], "count Some(\"%Rust%\")");
    assert_eq!(log[1], "load Some(\"%Rust%\") 10 20");
}

#[test]
fn list_posts_fails_on_a_failed_query() {
    let (state, action) = list_posts(1, 10, None);
    assert!(matches!(action, ListPostsAction::CountPosts { pattern: None }));
    let (state, action) = state.step(ListPostsEvent::Counted(4));
    assert!(matches!(action, ListPostsAction::LoadPosts { limit: 10, offset: 0, .. }));
    let (state, action) = state.step(ListPostsEvent::QueryFailed);
    assert!(matches!(action, ListPostsAction::Fail));
    assert!(matches!(state.step(ListPostsEvent::Counted(1)).1, ListPostsAction::Fail));
}

#[test]
fn list_posts_uses_last_author_row_and_tag_row() {
    let (state, _) = list_posts(1, 10, None);
    let (state, _) = state.step(ListPostsEvent::Counted(2));
    let posts = vec![
        Post { id: 9, created_by: Some(4), title: "a".to_string(), body: "x".to_string() },
        Post { id: 8, created_by: None, title: "b".to_string(), body: "y".to_string() },
    ];
    let (state, action) = state.step(ListPostsEvent::PostsLoaded(posts));
    match action {
        ListPostsAction::LoadUsers { user_ids } => assert_eq!(user_ids, vec![4]),
        _ => panic!("authors come next"),
    }
    let users = vec![
        User { id: 4, username: "old".to_string(), first_name: "F".to_string(), last_name: "L".to_string() },
        User { id: 4, username: "new".to_string(), first_name: "F".to_string(), last_name: "L".to_string() },
    ];
    let (state, action) = state.step(ListPostsEvent::UsersLoaded(users));
    match action {
        ListPostsAction::LoadTags { post_ids } => assert_eq!(post_ids, vec![9, 8]),
        _ => panic!("tags come next"),
    }
    let rows = vec![
        PostTags { post_id: 9, tags: Some(vec!["first".to_string()]) },
        PostTags { post_id: 9, tags: Some(vec!["second".to_string()]) },
        PostTags { post_id: 8, tags: None },
    ];
    let (_, action) = state.step(ListPostsEvent::TagsLoaded(rows));
    match action {
        ListPostsAction::Respond { posts, total_count } => {
            assert_eq!(total_count, 2);
            assert_eq!(posts[0].id, 9);
            assert_eq!(posts[0].created_by.as_ref().unwrap().username, "new");
            assert_eq!(posts[0].tags, vec!["second".to_string()]);
            assert_eq!(posts[1].id, 8);
            assert!(posts[1].created_by.is_none());
            assert!(posts[1].tags.is_empty());
        }
        _ => panic!("the listing answers"),
    }
}

#[test]
fn integration_tests_test_create_post_with_tags() {
    let mut db = FakeDb::new();
    let new_user = NewUser {
        username: "testuser".to_string(),
        first_name: "Test".to_string(),
        last_name: "User".to_string(),
    };
    let user = db.create_user(new_user);
    let input = CreatePostRequest {
        created_by: user.id,
        title: "Test Post".to_string(),
        body: "This is a test post".to_string(),
        tags: vec!["tag1".to_string(), "tag2".to_string()],
    };
    let post = db.run_create(input).1.unwrap();
    assert_eq!(post.title, "Test Post");
    assert_eq!(post.tags, vec!["tag1".to_string(), "tag2".to_string()]);
}

#[test]
fn integration_tests_test_list_posts() {
    let mut db = FakeDb::new();
    let new_user = NewUser {
        username: "testuser".to_string(),
        first_name: "Test".to_string(),
        last_name: "User".to_string(),
    };
    let user = db.create_user(new_user);
    let input = CreatePostRequest {
        created_by: user.id,
        title: "Test Post".to_string(),
        body: "This is a test post".to_string(),
        tags: vec!["tag1".to_string()],
    };
    db.run_create(input).1.unwrap();
    let (posts, total_count) = db.run_list(1, 10, None).1.unwrap();
    assert_eq!(total_count, 1);
    assert_eq!(posts.len(), 1);
    assert_eq!(posts[0].title, "Test Post");
    assert_eq!(posts[0].tags, vec!["tag1".to_string()]);
}

#[test]
fn integration_tests_test_list_posts_with_search() {
    let mut db = FakeDb::new();
    let new_user = NewUser {
        username: "testuser".to_string(),
        first_name: "Test".to_string(),
        last_name: "User".to_string(),
    };
    let user = db.create_user(new_user);
    let input1 = CreatePostRequest {
        created_by: user.id,
        title: "Test Post".to_string(),
        body: "This is a test post".to_string(),
        tags: vec!["tag1".to_string()],
    };
    let input2 = CreatePostRequest {
        created_by: user.id,
        title: "Another Post".to_string(),
        body: "Different content".to_string(),
        tags: vec!["tag2".to_string()],
    };
    db.run_create(input1).1.unwrap();
    db.run_create(input2).1.unwrap();
    let (posts, total_count) = db.run_list(1, 10, Some("test".to_string())).1.unwrap();
    assert_eq!(total_count, 1);
    assert_eq!(posts.len(), 1);
    assert_eq!(posts[0].title, "Test Post");
}

#[test]
fn paging_visits_each_post_once_newest_first() {
    let mut db = FakeDb::new();
    let user = db.create_user(test_user());
    for i in 1..=7 {
        db.run_create(CreatePostRequest {
            created_by: user.id,
            title: format!("Post {}", i),
            body: "body".to_string(),
            tags: vec![],
        })
        .1
        .unwrap();
    }
    let limit = 3;
    let (_, total) = db.run_list(1, limit, None).1.unwrap();
    let pages = (total + limit - 1) / limit;
    let mut seen = Vec::new();
    for p in 1..=pages {
        let (posts, _) = db.run_list(p, limit, None).1.unwrap();
        seen.extend(posts.into_iter().map(|r| r.id));
    }
    assert_eq!(seen, vec![7, 6, 5, 4, 3, 2, 1]);
    assert!(db.run_list(pages + 1, limit, None).1.unwrap().0.is_empty());
}

#[test]
fn created_post_is_listed_as_created() {
    let mut db = FakeDb::new();
    let user = db.create_user(test_user());
    let created = db
        .run_create(CreatePostRequest {
            created_by: user.id,
            title: "Hello".to_string(),
            body: "World".to_string(),
            tags: vec!["a".to_string(), "b".to_string()],
        })
        .1
        .unwrap();
    let (posts, _) = db.run_list(1, 10, None).1.unwrap();
    let listed = &posts[0];
    assert_eq!(listed.id, created.id);
    assert_eq!(listed.title, created.title);
    assert_eq!(listed.body, created.body);
    assert_eq!(listed.tags, created.tags);
    let (a, b) = (listed.created_by.as_ref().unwrap(), created.created_by.as_ref().unwrap());
    assert_eq!(a.user_id, b.user_id);
    assert_eq!(a.username, b.username);
    assert_eq!(a.first_name, b.first_name);
    assert_eq!(a.last_name, b.last_name);
}
