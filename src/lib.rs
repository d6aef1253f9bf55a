//! A document-review workflow: a post moves from draft to pending review
//! and on to approval (or back to draft on rejection), and every transition
//! is recorded in an append-only, numbered history.
pub mod author;
pub mod history;
pub mod post;
pub mod text;
pub mod workflow;

pub use author::Author;
pub use history::HistoryLog;
pub use post::{Post, PostDraft, PostHistory, PostPendingReview};
