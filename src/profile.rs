//! The moderator's view of a candidate: the local record next to what the
//! identity service holds on them.
use vstd::prelude::*;
use crate::user::User;

verus! {

/// The body of a post: its own text, or the link it points to.
#[derive(Clone, Debug)]
pub struct RedditContent {
    pub content: Option<String>,
    pub url: Option<String>,
    pub over_18: bool,
}

/// One of the candidate's posts.
#[derive(Clone, Debug)]
pub struct RedditPost {
    pub subreddit: String,
    pub url: String,
    pub id: String,
    pub title: String,
    pub content: RedditContent,
    pub score: i64,
}

/// One of the candidate's comments.
#[derive(Clone, Debug)]
pub struct Comment {
    pub subreddit: String,
    pub url: String,
    pub id: String,
    pub og_post_title: String,
    pub content: String,
    pub score: i64,
}

/// The candidate as the moderator sees them.
#[derive(Clone, Debug)]
pub struct RedditUser {
    pub name: String,
    pub avatar: String,
    pub comment_karma: i64,
    pub total_karma: i64,
    pub created: i64,
    pub top_posts: Vec<RedditPost>,
    pub top_comments: Vec<Comment>,
    pub user: User,
}

/// The address of a post or comment, from its permalink.
pub open spec fn link_of(permalink: Seq<char>) -> Seq<char> {
    "https://reddit.com"@ + permalink
}

/// The full address of a permalink.
pub fn reddit_link(permalink: &str) -> (r: String)
    ensures
        r@ == link_of(permalink@),
{
    String::from_str("https://reddit.com").concat(permalink)
}

impl RedditContent {
    /// A post's body: its text where it has any, else the link it carries.
    pub fn from_submission(selftext: String, link: Option<String>, over_18: bool) -> (r: RedditContent)
        ensures
            selftext@.len() == 0 ==> r.content is None && r.url == link,
            selftext@.len() != 0 ==> r.content == Some(selftext) && r.url is None,
            r.over_18 == over_18,
    {
        if selftext.as_str().unicode_len() == 0 {
            RedditContent { content: None, url: link, over_18 }
        } else {
            RedditContent { content: Some(selftext), url: None, over_18 }
        }
    }
}

impl RedditPost {
    /// A post, with its address made whole and its body chosen as
    /// `RedditContent::from_submission` does.
    pub fn from_submission(
        subreddit: String,
        permalink: &str,
        id: String,
        title: String,
        selftext: String,
        link: Option<String>,
        over_18: bool,
        score: i64,
    ) -> (r: RedditPost)
        ensures
            r.subreddit == subreddit,
            r.url@ == link_of(permalink@),
            r.id == id,
            r.title == title,
            selftext@.len() == 0 ==> r.content.content is None && r.content.url == link,
            selftext@.len() != 0 ==> r.content.content == Some(selftext) && r.content.url is None,
            r.content.over_18 == over_18,
            r.score == score,
    {
        RedditPost {
            subreddit,
            url: reddit_link(permalink),
            id,
            title,
            content: RedditContent::from_submission(selftext, link, over_18),
            score,
        }
    }
}

impl Comment {
    /// A comment, with its address made whole.
    pub fn from_listing(
        subreddit: String,
        permalink: &str,
        id: String,
        og_post_title: String,
        content: String,
        score: i64,
    ) -> (r: Comment)
        ensures
            r.subreddit == subreddit,
            r.url@ == link_of(permalink@),
            r.id == id,
            r.og_post_title == og_post_title,
            r.content == content,
            r.score == score,
    {
        Comment { subreddit, url: reddit_link(permalink), id, og_post_title, content, score }
    }
}

} // verus!
