//! The workflow as a whole: a post in any of its states, the steps a caller
//! can take, the replay of a sequence of steps from a new draft, and the laws
//! that every such sequence obeys. Each step is the transition that the
//! corresponding method of `PostDraft` or `PostPendingReview` performs.
use vstd::prelude::*;
use crate::author::AuthorView;
use crate::history::{numbered, numbered_line, render_log};
use crate::post::{
    appended, approvable, event_created, event_rejected, event_review_requested, spec_add_author,
    spec_add_text, spec_approve, spec_new_draft, spec_reject, spec_request_review, ApprovedView,
    PostView,
};
use crate::text::join_lines;

verus! {

/// A post in one of its three states.
pub enum Stage {
    Draft(PostView),
    Pending(PostView),
    Approved(ApprovedView),
}

/// One operation a caller applies to a post.
pub enum Step {
    AddText(Seq<char>),
    AddAuthor(AuthorView),
    RequestReview,
    Approve,
    Reject(Seq<char>),
}

/// The content of a post in any state.
pub open spec fn stage_content(s: Stage) -> Option<Seq<char>> {
    match s {
        Stage::Draft(p) => p.content,
        Stage::Pending(p) => p.content,
        Stage::Approved(a) => Some(a.content),
    }
}

/// The author of a post in any state.
pub open spec fn stage_author(s: Stage) -> Option<AuthorView> {
    match s {
        Stage::Draft(p) => p.author,
        Stage::Pending(p) => p.author,
        Stage::Approved(a) => Some(a.author),
    }
}

/// The history of a post in any state.
pub open spec fn stage_history(s: Stage) -> Seq<Seq<char>> {
    match s {
        Stage::Draft(p) => p.history,
        Stage::Pending(p) => p.history,
        Stage::Approved(a) => a.history,
    }
}

/// The post after `step`, or `None` where the step is not offered in the
/// post's state (approval also needs content and an author).
pub open spec fn apply(s: Stage, step: Step) -> Option<Stage> {
    match s {
        Stage::Draft(p) => match step {
            Step::AddText(t) => Some(Stage::Draft(spec_add_text(p, t))),
            Step::AddAuthor(a) => Some(Stage::Draft(spec_add_author(p, a))),
            Step::RequestReview => Some(Stage::Pending(spec_request_review(p))),
            _ => None,
        },
        Stage::Pending(p) => match step {
            Step::Approve => if approvable(p) {
                Some(Stage::Approved(spec_approve(p)))
            } else {
                None
            },
            Step::Reject(m) => Some(Stage::Draft(spec_reject(p, m))),
            _ => None,
        },
        Stage::Approved(_) => None,
    }
}

/// The post that `steps` make of a new draft, or `None` where one of them
/// is not offered.
pub open spec fn replay(steps: Seq<Step>) -> Option<Stage>
    decreases steps.len(),
{
    if steps.len() == 0 {
        Some(Stage::Draft(spec_new_draft()))
    } else {
        match replay(steps.drop_last()) {
            Some(s) => apply(s, steps.last()),
            None => None,
        }
    }
}

/// The texts of the `AddText` steps, in order.
pub open spec fn texts_added(steps: Seq<Step>) -> Seq<Seq<char>>
    decreases steps.len(),
{
    if steps.len() == 0 {
        Seq::empty()
    } else {
        match steps.last() {
            Step::AddText(t) => texts_added(steps.drop_last()).push(t),
            _ => texts_added(steps.drop_last()),
        }
    }
}

/// The author of the last `AddAuthor` step, if any.
pub open spec fn last_author(steps: Seq<Step>) -> Option<AuthorView>
    decreases steps.len(),
{
    if steps.len() == 0 {
        None
    } else {
        match steps.last() {
            Step::AddAuthor(a) => Some(a),
            _ => last_author(steps.drop_last()),
        }
    }
}

/// The texts joined by newlines, or no content for no texts.
pub open spec fn joined(texts: Seq<Seq<char>>) -> Option<Seq<char>> {
    if texts.len() == 0 {
        None
    } else {
        Some(join_lines(texts))
    }
}

/// One `AddText` step for each of `texts`.
pub open spec fn add_text_steps(texts: Seq<Seq<char>>) -> Seq<Step> {
    Seq::new(texts.len(), |i: int| Step::AddText(texts[i]))
}

proof fn lemma_joined_push(texts: Seq<Seq<char>>, t: Seq<char>)
    ensures
        joined(texts.push(t)) == Some(appended(joined(texts), t)),
{
    assert(texts.push(t).drop_last() =~= texts);
}

/// Whatever steps led to a post, its content is the added texts joined by
/// newlines, its author is the last one set, and its history holds one entry
/// for its creation and one for each step, the first being the creation.
pub proof fn law_replay_summary(steps: Seq<Step>)
    ensures
        replay(steps) matches Some(s) ==> {
            &&& stage_content(s) == joined(texts_added(steps))
            &&& stage_author(s) == last_author(steps)
            &&& stage_history(s).len() == steps.len() + 1
            &&& stage_history(s)[0] == event_created()
        },
    decreases steps.len(),
{
    if steps.len() > 0 {
        law_replay_summary(steps.drop_last());
        if let Step::AddText(t) = steps.last() {
            lemma_joined_push(texts_added(steps.drop_last()), t);
        }
    }
}

/// Every step appends exactly one history entry and leaves the earlier
/// entries as they were.
pub proof fn law_history_append_only(steps: Seq<Step>, step: Step)
    ensures
        replay(steps.push(step)) matches Some(s) ==> {
            &&& replay(steps) is Some
            &&& stage_history(s).drop_last() == stage_history(replay(steps)->0)
        },
{
    assert(steps.push(step).drop_last() =~= steps);
    if replay(steps.push(step)) is Some {
        assert(stage_history(replay(steps.push(step))->0).drop_last()
            =~= stage_history(replay(steps)->0));
    }
}

/// Adding texts one after another to a new draft gives a draft whose content
/// is those texts joined by newlines, in the order they were added.
pub proof fn law_texts_joined(texts: Seq<Seq<char>>)
    ensures
        replay(add_text_steps(texts)) matches Some(s) && s is Draft,
        stage_content(replay(add_text_steps(texts))->0) == joined(texts),
    decreases texts.len(),
{
    let steps = add_text_steps(texts);
    if texts.len() > 0 {
        assert(steps.drop_last() =~= add_text_steps(texts.drop_last()));
        law_texts_joined(texts.drop_last());
        lemma_joined_push(texts.drop_last(), texts.last());
        assert(texts.drop_last().push(texts.last()) =~= texts);
    }
}

/// Rejecting a post and at once asking for review again keeps its content
/// and author; only its history grows, by the two events.
pub proof fn law_reject_then_review(p: PostView, message: Seq<char>)
    ensures
        spec_request_review(spec_reject(p, message)).content == p.content,
        spec_request_review(spec_reject(p, message)).author == p.author,
        spec_request_review(spec_reject(p, message)).history
            == p.history + seq![event_rejected(message), event_review_requested()],
{
    assert(spec_request_review(spec_reject(p, message)).history
        =~= p.history + seq![event_rejected(message), event_review_requested()]);
}

proof fn lemma_text_step_exists(steps: Seq<Step>)
    ensures
        texts_added(steps).len() > 0 ==> exists|i: int| 0 <= i < steps.len() && steps[i] is AddText,
    decreases steps.len(),
{
    if steps.len() > 0 && texts_added(steps).len() > 0 {
        if steps.last() is AddText {
            assert(steps[steps.len() - 1] is AddText);
        } else {
            lemma_text_step_exists(steps.drop_last());
            let i = choose|i: int| 0 <= i < steps.drop_last().len() && steps.drop_last()[i] is AddText;
            assert(steps[i] is AddText);
        }
    }
}

proof fn lemma_author_step_exists(steps: Seq<Step>)
    ensures
        last_author(steps) matches Some(a) ==> exists|i: int|
            0 <= i < steps.len() && steps[i] == Step::AddAuthor(a),
    decreases steps.len(),
{
    if steps.len() > 0 && last_author(steps) is Some {
        if steps.last() is AddAuthor {
            assert(steps[steps.len() - 1] == Step::AddAuthor(last_author(steps)->0));
        } else {
            lemma_author_step_exists(steps.drop_last());
            let a = last_author(steps)->0;
            let i = choose|i: int|
                0 <= i < steps.drop_last().len() && steps.drop_last()[i] == Step::AddAuthor(a);
            assert(steps[i] == Step::AddAuthor(a));
        }
    }
}

/// An approved post holds the content and the author last set before its
/// approval, and no post is approved without at least one text added and an
/// author set.
pub proof fn law_approved_keeps_last_values(steps: Seq<Step>)
    ensures
        replay(steps) matches Some(Stage::Approved(a)) ==> {
            &&& Some(a.content) == joined(texts_added(steps))
            &&& Some(a.author) == last_author(steps)
            &&& exists|i: int| 0 <= i < steps.len() && steps[i] is AddText
            &&& exists|i: int| 0 <= i < steps.len() && steps[i] == Step::AddAuthor(a.author)
        },
{
    law_replay_summary(steps);
    lemma_text_step_exists(steps);
    lemma_author_step_exists(steps);
}

/// Appending an entry to a non-empty log leaves every rendered line as it
/// was and adds the next numbered line at the end.
pub proof fn law_render_extends(entries: Seq<Seq<char>>, event: Seq<char>)
    requires
        entries.len() > 0,
    ensures
        numbered(entries.push(event)) == numbered(entries).push(
            numbered_line(entries.len(), event),
        ),
        render_log(entries.push(event)) == render_log(entries) + seq!['\n'] + numbered_line(
            entries.len(),
            event,
        ),
{
    let lines = numbered(entries.push(event));
    assert(lines =~= numbered(entries).push(numbered_line(entries.len(), event)));
    assert(lines.drop_last() =~= numbered(entries));
}

/// Two logs made from one log by two `add` calls each hold the common
/// entries followed by their own new entry, and nothing of the other's.
pub proof fn law_add_independent(log: Seq<Seq<char>>, first: Seq<char>, second: Seq<char>)
    ensures
        log.push(first).len() == log.len() + 1,
        log.push(second).len() == log.len() + 1,
        log.push(first).drop_last() == log,
        log.push(second).drop_last() == log,
        log.push(first).last() == first,
        log.push(second).last() == second,
{
    assert(log.push(first).drop_last() =~= log);
    assert(log.push(second).drop_last() =~= log);
}

} // verus!
