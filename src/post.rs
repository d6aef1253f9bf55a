//! The workflow states of a post. Each state is its own type and offers only
//! the operations valid in it; every transition consumes the post it is
//! called on and returns the post in its next state, with one more entry in
//! its history.
use vstd::prelude::*;
use crate::author::{Author, AuthorView};
use crate::history::{render_log, HistoryLog};
use crate::text::{decimal, decimal_string};

verus! {

/// What a draft or a post pending review is: its content and author, each
/// possibly not yet given, and its history entries.
pub struct PostView {
    pub content: Option<Seq<char>>,
    pub author: Option<AuthorView>,
    pub history: Seq<Seq<char>>,
}

/// What an approved post is: content and author are always present.
pub struct ApprovedView {
    pub content: Seq<char>,
    pub author: AuthorView,
    pub history: Seq<Seq<char>>,
}

/// History entry of a new draft.
pub open spec fn event_created() -> Seq<char> {
    "Draft created"@
}

/// History entry of adding `count` characters of text.
pub open spec fn event_text_added(count: nat) -> Seq<char> {
    decimal(count) + " characters of text added"@
}

/// History entry of setting the author.
pub open spec fn event_author_added(author: AuthorView) -> Seq<char> {
    "Author added: "@ + author.rendered()
}

/// History entry of a review request.
pub open spec fn event_review_requested() -> Seq<char> {
    "Review requested"@
}

/// History entry of an approval.
pub open spec fn event_approved() -> Seq<char> {
    "Draft approved"@
}

/// History entry of a rejection with `message`.
pub open spec fn event_rejected(message: Seq<char>) -> Seq<char> {
    "Draft rejected with message: '"@ + message + "'"@
}

/// The content after adding `text`: `text` alone when there was none yet,
/// otherwise the old content, a newline and `text`.
pub open spec fn appended(content: Option<Seq<char>>, text: Seq<char>) -> Seq<char> {
    match content {
        Some(old) => old + seq!['\n'] + text,
        None => text,
    }
}

/// A new draft: no content, no author, one history entry.
pub open spec fn spec_new_draft() -> PostView {
    PostView { content: None, author: None, history: seq![event_created()] }
}

/// A draft after `add_text(text)`.
pub open spec fn spec_add_text(p: PostView, text: Seq<char>) -> PostView {
    PostView {
        content: Some(appended(p.content, text)),
        author: p.author,
        history: p.history.push(event_text_added(text.len())),
    }
}

/// A draft after `add_author(author)`.
pub open spec fn spec_add_author(p: PostView, author: AuthorView) -> PostView {
    PostView {
        content: p.content,
        author: Some(author),
        history: p.history.push(event_author_added(author)),
    }
}

/// A draft after `request_review()`.
pub open spec fn spec_request_review(p: PostView) -> PostView {
    PostView {
        content: p.content,
        author: p.author,
        history: p.history.push(event_review_requested()),
    }
}

/// Whether a post pending review has both content and author, which
/// approval needs.
pub open spec fn approvable(p: PostView) -> bool {
    p.content is Some && p.author is Some
}

/// A post pending review after `approve()`.
pub open spec fn spec_approve(p: PostView) -> ApprovedView {
    ApprovedView {
        content: p.content.unwrap(),
        author: p.author.unwrap(),
        history: p.history.push(event_approved()),
    }
}

/// A post pending review after `reject(message)`.
pub open spec fn spec_reject(p: PostView, message: Seq<char>) -> PostView {
    PostView {
        content: p.content,
        author: p.author,
        history: p.history.push(event_rejected(message)),
    }
}

/// The rendered history of a post in any state.
pub trait PostHistory {
    /// The history as numbered lines, oldest first.
    fn history(&self) -> String;
}

/// An approved post. Its content and author are always present.
pub struct Post<'a> {
    content: String,
    author: &'a Author,
    history: HistoryLog,
}

/// A post being edited.
pub struct PostDraft<'a> {
    content: Option<String>,
    author: Option<&'a Author>,
    history: HistoryLog,
}

/// A post waiting for a review decision.
pub struct PostPendingReview<'a> {
    content: Option<String>,
    author: Option<&'a Author>,
    history: HistoryLog,
}

/// The text of an optional string.
pub open spec fn content_view(c: Option<String>) -> Option<Seq<char>> {
    match c {
        Some(s) => Some(s@),
        None => None,
    }
}

/// The names of an optional author.
pub open spec fn author_view(a: Option<&Author>) -> Option<AuthorView> {
    match a {
        Some(a) => Some(a@),
        None => None,
    }
}

impl<'a> View for Post<'a> {
    type V = ApprovedView;

    closed spec fn view(&self) -> ApprovedView {
        ApprovedView { content: self.content@, author: self.author@, history: self.history@ }
    }
}

impl<'a> View for PostDraft<'a> {
    type V = PostView;

    closed spec fn view(&self) -> PostView {
        PostView {
            content: content_view(self.content),
            author: author_view(self.author),
            history: self.history@,
        }
    }
}

impl<'a> View for PostPendingReview<'a> {
    type V = PostView;

    closed spec fn view(&self) -> PostView {
        PostView {
            content: content_view(self.content),
            author: author_view(self.author),
            history: self.history@,
        }
    }
}

impl<'a> Post<'a> {
    /// Starts a new draft with no content and no author.
    pub fn new() -> (r: PostDraft<'a>)
        ensures
            r@ == spec_new_draft(),
    {
        let history = HistoryLog::new().add("Draft created");
        let r = PostDraft { content: None, author: None, history };
        assert(r@.history =~= seq![event_created()]);
        r
    }

    /// The approved content.
    pub fn content(&self) -> (r: &str)
        ensures
            r@ == self@.content,
    {
        self.content.as_str()
    }

    /// The author, rendered as `"<firstname> <lastname>"`.
    pub fn author(&self) -> (r: String)
        ensures
            r@ == self@.author.rendered(),
    {
        self.author.render()
    }
}

impl<'a> PostDraft<'a> {
    /// Sets the author, replacing any earlier one; the content is kept.
    pub fn add_author(self, author: &'a Author) -> (r: PostDraft<'a>)
        ensures
            r@ == spec_add_author(self@, author@),
    {
        let mut event = String::from_str("Author added: ");
        let name = author.render();
        event.append(name.as_str());
        let history = self.history.add(event.as_str());
        PostDraft { content: self.content, author: Some(author), history }
    }

    /// Appends `new` to the content on a line of its own.
    pub fn add_text(self, new: &str) -> (r: PostDraft<'a>)
        ensures
            r@ == spec_add_text(self@, new@),
    {
        let new_content = match self.content {
            Some(old) => {
                let mut c = old;
                c.append("\n");
                c.append(new);
                proof {
                    reveal_strlit("\n");
                }
                c
            },
            None => String::from_str(new),
        };
        let mut event = decimal_string(new.unicode_len());
        event.append(" characters of text added");
        let history = self.history.add(event.as_str());
        let r = PostDraft { content: Some(new_content), author: self.author, history };
        assert(r@.content->0 =~= appended(self@.content, new@));
        r
    }

    /// Submits the draft for review; content and author are carried over.
    pub fn request_review(self) -> (r: PostPendingReview<'a>)
        ensures
            r@ == spec_request_review(self@),
    {
        let history = self.history.add("Review requested");
        PostPendingReview { content: self.content, author: self.author, history }
    }
}

impl<'a> PostPendingReview<'a> {
    /// Whether the post has both content and an author, so that it can be
    /// approved.
    pub fn can_approve(&self) -> (r: bool)
        ensures
            r == approvable(self@),
    {
        self.content.is_some() && self.author.is_some()
    }

    /// Approves the post; content and author are carried over.
    pub fn approve(self) -> (r: Post<'a>)
        requires
            approvable(self@),
        ensures
            r@ == spec_approve(self@),
    {
        let history = self.history.add("Draft approved");
        Post { content: self.content.unwrap(), author: self.author.unwrap(), history }
    }

    /// Sends the post back to draft with `message`; content and author are
    /// carried over.
    pub fn reject(self, message: &str) -> (r: PostDraft<'a>)
        ensures
            r@ == spec_reject(self@, message@),
    {
        let mut event = String::from_str("Draft rejected with message: '");
        event.append(message);
        event.append("'");
        let history = self.history.add(event.as_str());
        PostDraft { content: self.content, author: self.author, history }
    }
}

impl<'a> PostHistory for Post<'a> {
    fn history(&self) -> (r: String)
        ensures
            r@ == render_log(self@.history),
    {
        self.history.render()
    }
}

impl<'a> PostHistory for PostDraft<'a> {
    fn history(&self) -> (r: String)
        ensures
            r@ == render_log(self@.history),
    {
        self.history.render()
    }
}

impl<'a> PostHistory for PostPendingReview<'a> {
    fn history(&self) -> (r: String)
        ensures
            r@ == render_log(self@.history),
    {
        self.history.render()
    }
}

} // verus!
