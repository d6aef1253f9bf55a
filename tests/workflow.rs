use post_workflow::{Author, HistoryLog, Post, PostHistory};

fn lines(rendered: &str) -> Vec<String> {
    rendered.split('\n').map(|l| l.to_string()).collect()
}

#[test]
fn author_builder_sets_names() {
    let a = Author::new().add_firstname("Michael").add_lastname("Cane");
    assert_eq!(a.render(), "Michael Cane");
}

#[test]
fn author_builder_replaces_and_keeps() {
    let a = Author::new().add_lastname("James").add_firstname("Jesse").add_firstname("Frank");
    assert_eq!(a.render(), "Frank James");
}

#[test]
fn author_default_names_are_empty() {
    assert_eq!(Author::new().render(), " ");
    assert_eq!(Author::new().add_firstname("Only").render(), "Only ");
}

#[test]
fn empty_log_renders_empty() {
    let log = HistoryLog::new();
    assert_eq!(log.len(), 0);
    assert_eq!(log.render(), "");
}

#[test]
fn log_renders_numbered_lines() {
    let log = HistoryLog::new().add("first").add("second");
    assert_eq!(log.len(), 2);
    assert_eq!(log.render(), "0 -> first\n1 -> second");
}

#[test]
fn log_numbers_past_nine() {
    let mut log = HistoryLog::new();
    for i in 0..12 {
        log = log.add(&format!("e{}", i));
    }
    let rendered = log.render();
    let ls = lines(&rendered);
    assert_eq!(ls.len(), 12);
    assert_eq!(ls[10], "10 -> e10");
    assert_eq!(ls[11], "11 -> e11");
}

#[test]
fn log_add_leaves_ancestor_alone() {
    let base = HistoryLog::new().add("common");
    let left = base.add("left");
    let right = base.add("right");
    assert_eq!(base.render(), "0 -> common");
    assert_eq!(left.render(), "0 -> common\n1 -> left");
    assert_eq!(right.render(), "0 -> common\n1 -> right");
    assert_eq!(base.len(), 1);
    assert_eq!(left.len(), 2);
    assert_eq!(right.len(), 2);
}

#[test]
fn new_draft_history() {
    let d = Post::new();
    assert_eq!(d.history(), "0 -> Draft created");
}

#[test]
fn add_text_joins_with_newlines() {
    let a = Author::new().add_firstname("A").add_lastname("B");
    let p = Post::new()
        .add_text("one")
        .add_text("two")
        .add_text("three")
        .add_author(&a)
        .request_review()
        .approve();
    assert_eq!(p.content(), "one\ntwo\nthree");
}

#[test]
fn single_text_has_no_leading_newline() {
    let a = Author::new().add_firstname("A").add_lastname("B");
    let p = Post::new().add_author(&a).add_text("only").request_review().approve();
    assert_eq!(p.content(), "only");
}

#[test]
fn empty_text_is_counted_as_zero() {
    let d = Post::new().add_text("");
    assert_eq!(d.history(), "0 -> Draft created\n1 -> 0 characters of text added");
}

#[test]
fn text_count_is_in_characters() {
    let d = Post::new().add_text("héllo");
    assert_eq!(d.history(), "0 -> Draft created\n1 -> 5 characters of text added");
}

#[test]
fn add_author_is_logged_and_last_wins() {
    let a = Author::new().add_firstname("Michael").add_lastname("Cane");
    let b = Author::new().add_firstname("Jesse").add_lastname("James");
    let d = Post::new().add_author(&a).add_author(&b).add_text("x");
    assert_eq!(
        d.history(),
        "0 -> Draft created\n1 -> Author added: Michael Cane\n2 -> Author added: Jesse James\n3 -> 1 characters of text added"
    );
    let p = d.request_review().approve();
    assert_eq!(p.author(), "Jesse James");
}

#[test]
fn reject_then_review_keeps_content_and_author() {
    let a = Author::new().add_firstname("Jesse").add_lastname("James");
    let pending = Post::new().add_author(&a).add_text("Hi").request_review();
    let before = pending.history();
    let again = pending.reject("more").request_review();
    assert_eq!(
        again.history(),
        format!("{}\n4 -> Draft rejected with message: 'more'\n5 -> Review requested", before)
    );
    let p = again.approve();
    assert_eq!(p.content(), "Hi");
    assert_eq!(p.author(), "Jesse James");
}

#[test]
fn approval_needs_text_and_author() {
    let a = Author::new().add_firstname("A").add_lastname("B");
    assert!(!Post::new().request_review().can_approve());
    assert!(!Post::new().add_text("t").request_review().can_approve());
    assert!(!Post::new().add_author(&a).request_review().can_approve());
    assert!(Post::new().add_author(&a).add_text("t").request_review().can_approve());
}

#[test]
fn history_grows_by_one_per_transition() {
    let a = Author::new().add_firstname("A").add_lastname("B");
    let d = Post::new();
    assert_eq!(lines(&d.history()).len(), 1);
    let d = d.add_text("x");
    assert_eq!(lines(&d.history()).len(), 2);
    let d = d.add_author(&a);
    assert_eq!(lines(&d.history()).len(), 3);
    let pending = d.request_review();
    assert_eq!(lines(&pending.history()).len(), 4);
    let d = pending.reject("r");
    assert_eq!(lines(&d.history()).len(), 5);
    let p = d.request_review().approve();
    let ls = lines(&p.history());
    assert_eq!(ls.len(), 7);
    for (i, l) in ls.iter().enumerate() {
        assert!(l.starts_with(&format!("{} -> ", i)));
    }
}

#[test]
fn end_to_end_history_before_approval() {
    let pending = Post::new()
        .add_text("Hi")
        .add_text("Bye")
        .request_review()
        .reject("no")
        .add_text("Ok")
        .request_review();
    assert_eq!(
        pending.history(),
        "0 -> Draft created\n\
         1 -> 2 characters of text added\n\
         2 -> 3 characters of text added\n\
         3 -> Review requested\n\
         4 -> Draft rejected with message: 'no'\n\
         5 -> 2 characters of text added\n\
         6 -> Review requested"
    );
    assert!(!pending.can_approve());
}

#[test]
fn end_to_end_with_author() {
    let a = Author::new().add_firstname("Michael").add_lastname("Cane");
    let p = Post::new()
        .add_author(&a)
        .add_text("Hi")
        .add_text("Bye")
        .request_review()
        .reject("no")
        .add_text("Ok")
        .request_review()
        .approve();
    assert_eq!(p.content(), "Hi\nBye\nOk");
    assert_eq!(p.author(), "Michael Cane");
    assert_eq!(
        p.history(),
        "0 -> Draft created\n\
         1 -> Author added: Michael Cane\n\
         2 -> 2 characters of text added\n\
         3 -> 3 characters of text added\n\
         4 -> Review requested\n\
         5 -> Draft rejected with message: 'no'\n\
         6 -> 2 characters of text added\n\
         7 -> Review requested\n\
         8 -> Draft approved"
    );
}
