use reddit_nobility::access::{check_login, password_outcome};
use reddit_nobility::discovery::{contains_text, new_candidate, parse_submission, strip_text};
use reddit_nobility::review::ReviewError;
use reddit_nobility::user::Status;

#[test]
fn submission_markers_set_status() {
    assert_eq!(parse_submission("alice=T"), ("alice".to_string(), Status::Approved));
    assert_eq!(parse_submission("bob=F\r"), ("bob".to_string(), Status::Denied));
    assert_eq!(parse_submission("carol\r"), ("carol".to_string(), Status::Found));
    assert_eq!(parse_submission("dave"), ("dave".to_string(), Status::Found));
}

#[test]
fn approval_marker_wins_over_denial() {
    assert_eq!(parse_submission("eve=F=T"), ("eve".to_string(), Status::Approved));
}

#[test]
fn markers_are_removed_once_from_left() {
    assert_eq!(parse_submission("a==TT"), ("a=T".to_string(), Status::Approved));
    assert_eq!(parse_submission(""), (String::new(), Status::Found));
}

#[test]
fn text_search_and_strip() {
    assert!(contains_text("hello", "ll"));
    assert!(contains_text("hello", "hello"));
    assert!(contains_text("hello", ""));
    assert!(!contains_text("hello", "hello!"));
    assert!(!contains_text("", "a"));
    assert_eq!(strip_text("a-b-c", "-"), "abc");
    assert_eq!(strip_text("aaa", "aa"), "a");
    assert_eq!(strip_text("xyz", "q"), "xyz");
}

#[test]
fn new_candidate_record() {
    let u = new_candidate("zed".to_string(), "scout".to_string(), Status::Found, "No Title Identified".to_string(), 99);
    assert_eq!(u.username, "zed");
    assert_eq!(u.discoverer, "scout");
    assert_eq!(u.status, Status::Found);
    assert_eq!(u.created, 99);
    assert_eq!(u.password_changed, 99);
    assert_eq!(u.status_changed, 0);
    assert!(u.password.is_empty());
    assert!(u.reviewer.is_empty());
    assert!(u.permissions.submit && u.permissions.login);
    assert!(!u.permissions.admin && !u.permissions.moderator && !u.permissions.review_user);
    assert_eq!(u.properties.avatar, None);
}

#[test]
fn password_outcomes() {
    assert_eq!(password_outcome(Some(true)), Ok(()));
    assert_eq!(password_outcome(Some(false)), Err(ReviewError::Unauthorized));
    assert_eq!(password_outcome(None), Err(ReviewError::DataAccess));
}

#[test]
fn login_needs_approved_user_and_matching_password() {
    let hash = bcrypt::hash("secret", 4).unwrap();
    let mut u = new_candidate("ann".to_string(), "scout".to_string(), Status::Approved, String::new(), 0);
    u.password = hash;
    assert_eq!(check_login(Some(&u), "secret"), Ok(()));
    assert_eq!(check_login(Some(&u), "wrong"), Err(ReviewError::Unauthorized));
    assert_eq!(check_login(None, "secret"), Err(ReviewError::Unauthorized));
    u.status = Status::Found;
    assert_eq!(check_login(Some(&u), "secret"), Err(ReviewError::Unauthorized));
    u.status = Status::Approved;
    u.password = "not a hash".to_string();
    assert_eq!(check_login(Some(&u), "secret"), Err(ReviewError::DataAccess));
}
