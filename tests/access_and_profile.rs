use reddit_nobility::access::{authorize_stats, bearer_token};
use reddit_nobility::calendar::month_start;
use reddit_nobility::profile::{reddit_link, Comment, RedditContent, RedditPost};
use reddit_nobility::response::{APIError, APIResponse, UserStats};
use reddit_nobility::review::ReviewError;
use reddit_nobility::token::{generate_otp_value, generate_token_value, otp_expiration};
use reddit_nobility::user::{text_eq, Status, User, UserPermissions, UserProperties};

fn user(name: &str, moderator: bool) -> User {
    User {
        id: 1,
        discord_id: 0,
        username: name.to_string(),
        password: String::new(),
        reviewer: String::new(),
        status: Status::Approved,
        status_changed: 0,
        created: 0,
        discoverer: String::new(),
        properties: UserProperties { avatar: None, description: None },
        title: String::new(),
        permissions: UserPermissions {
            admin: false,
            moderator,
            submit: true,
            review_user: false,
            login: true,
        },
        password_changed: 0,
    }
}

#[test]
fn bearer_header_yields_token() {
    assert_eq!(bearer_token("Bearer abc123"), Some("abc123".to_string()));
    assert_eq!(bearer_token("Bearer a b"), Some("a".to_string()));
    assert_eq!(bearer_token("Bearer "), Some(String::new()));
}

#[test]
fn other_headers_yield_nothing() {
    assert_eq!(bearer_token("Basic abc"), None);
    assert_eq!(bearer_token("Bearer"), None);
    assert_eq!(bearer_token(""), None);
    assert_eq!(bearer_token(" Bearer abc"), None);
    assert_eq!(bearer_token("bearer abc"), None);
}

#[test]
fn stats_visible_to_self_or_moderator() {
    let alice = user("alice", false);
    let bob = user("bob", false);
    let boss = user("boss", true);
    assert_eq!(authorize_stats(None, Some(&alice)), Err(ReviewError::Unauthorized));
    assert_eq!(authorize_stats(Some(&alice), None), Err(ReviewError::NotFound));
    assert_eq!(authorize_stats(Some(&alice), Some(&alice)), Ok(()));
    assert_eq!(authorize_stats(Some(&bob), Some(&alice)), Err(ReviewError::Unauthorized));
    assert_eq!(authorize_stats(Some(&boss), Some(&alice)), Ok(()));
}

#[test]
fn property_change_accepts_avatar_and_description_only() {
    let mut p = UserProperties { avatar: None, description: Some("old".to_string()) };
    assert_eq!(p.change("avatar", "pic.png".to_string()), Ok(()));
    assert_eq!(p.avatar, Some("pic.png".to_string()));
    assert_eq!(p.description, Some("old".to_string()));
    assert_eq!(p.change("description", "hi".to_string()), Ok(()));
    assert_eq!(p.description, Some("hi".to_string()));
    assert_eq!(p.change("title", "x".to_string()), Err(ReviewError::InvalidProperty));
    assert_eq!(p.avatar, Some("pic.png".to_string()));
    assert_eq!(p.description, Some("hi".to_string()));
}

#[test]
fn status_names_round_trip() {
    for s in [Status::Found, Status::Approved, Status::Denied] {
        assert_eq!(Status::parse(&s.name()), Some(s));
    }
    assert_eq!(Status::parse("Approved"), Some(Status::Approved));
    assert_eq!(Status::parse("Maybe"), None);
    assert_eq!(Status::Denied.name(), "Denied");
}

#[test]
fn only_approved_users_authenticate() {
    let mut u = user("a", false);
    assert!(u.may_authenticate());
    u.status = Status::Found;
    assert!(!u.may_authenticate());
    u.status = Status::Denied;
    assert!(!u.may_authenticate());
}

#[test]
fn text_equality() {
    assert!(text_eq("abc", "abc"));
    assert!(!text_eq("abc", "abd"));
    assert!(!text_eq("abc", "ab"));
    assert!(text_eq("", ""));
}

#[test]
fn links_and_post_bodies() {
    assert_eq!(reddit_link("/r/rust/comments/1"), "https://reddit.com/r/rust/comments/1");
    let linked = RedditContent::from_submission(String::new(), Some("https://x.org".to_string()), true);
    assert_eq!(linked.content, None);
    assert_eq!(linked.url, Some("https://x.org".to_string()));
    assert!(linked.over_18);
    let text = RedditContent::from_submission("hello".to_string(), Some("https://x.org".to_string()), false);
    assert_eq!(text.content, Some("hello".to_string()));
    assert_eq!(text.url, None);
    let post = RedditPost::from_submission(
        "rust".to_string(),
        "/p/1",
        "1".to_string(),
        "Title".to_string(),
        String::new(),
        None,
        false,
        42,
    );
    assert_eq!(post.url, "https://reddit.com/p/1");
    assert_eq!(post.score, 42);
    let c = Comment::from_listing("rust".to_string(), "/c/2", "2".to_string(), "Post".to_string(), "Nice".to_string(), -3);
    assert_eq!(c.url, "https://reddit.com/c/2");
    assert_eq!(c.og_post_title, "Post");
    assert_eq!(c.score, -3);
}

#[test]
fn month_start_timestamps() {
    assert_eq!(month_start(1970, 1), Some(0));
    assert_eq!(month_start(2024, 3), Some(1_709_251_200_000));
    assert_eq!(month_start(2000, 2), Some(949_363_200_000));
    assert_eq!(month_start(1969, 12), Some(-2_678_400_000));
    assert_eq!(month_start(2024, 13), None);
    assert_eq!(month_start(2024, 0), None);
}

#[test]
fn tokens_have_fixed_length_and_alphabet() {
    let otp = generate_otp_value();
    let token = generate_token_value();
    assert_eq!(otp.chars().count(), 6);
    assert_eq!(token.chars().count(), 25);
    assert!(otp.chars().all(|c| c.is_ascii_alphanumeric()));
    assert!(token.chars().all(|c| c.is_ascii_alphanumeric()));
    assert_eq!(otp_expiration(1_000), 3_601_000);
}

#[test]
fn api_error_reports_review_error() {
    let e = APIError::from_review_error(ReviewError::NotFound);
    assert_eq!(e.status_code, Some(404));
    assert_eq!(e.user_friendly_message, Some("Not found".to_string()));
    assert_eq!(e.error_code, None);
    let r = APIResponse::new(true, Some(UserStats {
        users_discovered: 3,
        users_discovered_this_month: 1,
        users_reviewed: 2,
        users_reviewed_this_month: 0,
    }));
    assert!(r.success);
    assert_eq!(r.data.unwrap().users_discovered, 3);
}
