//! What holds of every run, whatever the file system and the user answer.

use vstd::prelude::*;

use crate::matcher::PathFacts;
use crate::processing::{Command, Confirmation, Error, Event, Processing, Stage};

verus! {

/// A run with no path or no matcher does nothing: it finishes at once,
/// without reporting a setup.
pub proof fn law_empty_run_does_nothing(pre: Processing, post: Processing, cmd: Command)
    requires
        pre.stage is Ready,
        pre.paths@.len() == 0 || pre.matchers@.len() == 0,
        Processing::spec_step(pre, Event::Start, post, cmd),
    ensures
        cmd == Command::Finish(Ok(())),
        post.stage is Finished,
{
}

/// What the user decides about a matcher lasts for the rest of the run: a
/// step keeps the matchers, and a matcher once confirmed or ignored stays so.
pub proof fn law_decisions_last(pre: Processing, event: Event, post: Processing, cmd: Command)
    requires
        pre.wf(),
        Processing::spec_step(pre, event, post, cmd),
    ensures
        post.matchers@.len() == pre.matchers@.len(),
        post.paths@ == pre.paths@,
        forall|j: int|
            0 <= j < pre.matchers@.len() ==> {
                &&& post.matchers@[j].matcher == pre.matchers@[j].matcher
                &&& pre.matchers@[j].confirmed ==> post.matchers@[j].confirmed
                &&& pre.matchers@[j].ignored ==> post.matchers@[j].ignored
            },
{
    match (pre.stage, event) {
        (Stage::Inspecting(i), Event::Inspected(facts)) => {
            if facts.exists {
                let cands = choose|cands: Vec<Option<crate::replacement::Replacement>>|
                    Processing::valid_candidates(pre.matchers@, pre.paths@[i as int]@, facts, cands@)
                        && #[trigger] Processing::spec_search(pre.matchers@, pre.paths@, i as int, 0, cands, false, post, cmd);
            }
        },
        _ => {},
    }
}

/// A rename is put to the user only when it comes from a matcher that is
/// neither confirmed nor ignored; the run then waits for the user's decision
/// on it.
pub proof fn law_only_unconfirmed_matchers_ask(pre: Processing, event: Event, post: Processing, cmd: Command)
    requires
        pre.wf(),
        Processing::spec_step(pre, event, post, cmd),
        cmd is Confirm,
    ensures
        post.stage matches Stage::Confirming { index, matcher, candidates } && matcher < post.matchers@.len()
            && !post.matchers@[matcher as int].confirmed && !post.matchers@[matcher as int].ignored
            && candidates@[matcher as int] == Some(cmd->Confirm_0),
{
    match (pre.stage, event) {
        (Stage::Inspecting(i), Event::Inspected(facts)) => {
            if facts.exists {
                let c = choose|cands: Vec<Option<crate::replacement::Replacement>>|
                    Processing::valid_candidates(pre.matchers@, pre.paths@[i as int]@, facts, cands@)
                        && #[trigger] Processing::spec_search(pre.matchers@, pre.paths@, i as int, 0, cands, false, post, cmd);
                crate::processing::lemma_first_candidate(pre.matchers@, c@, 0);
            }
        },
        (Stage::Confirming { index, matcher, candidates }, Event::Confirmed(conf)) => {
            let m = pre.matchers@[matcher as int];
            match conf {
                Confirmation::Refuse => {
                    crate::processing::lemma_first_candidate(pre.matchers@, candidates@, matcher + 1);
                },
                Confirmation::Ignore => {
                    crate::processing::lemma_first_candidate(
                        pre.matchers@.update(matcher as int, Processing::flagged(m, m.confirmed, true)),
                        candidates@,
                        matcher + 1,
                    );
                },
                _ => {},
            }
        },
        _ => {},
    }
}

/// Aborting stops the run: the abort is reported, and the run then finishes
/// with the abort as its outcome.
pub proof fn law_abort_ends_run(
    pre: Processing,
    mid: Processing,
    first: Command,
    post: Processing,
    second: Command,
)
    requires
        pre.stage is Confirming,
        Processing::spec_step(pre, Event::Confirmed(Confirmation::Abort), mid, first),
        Processing::spec_step(mid, Event::Acknowledged, post, second),
    ensures
        first matches Command::ReportErr(_, e) && e is Abort,
        second == Command::Finish(Err(Error::Abort)),
        post.stage is Finished,
{
}

/// Aborting a rescue stops the run too: the abort is reported for the path
/// being rescued, and the run then finishes with the abort as its outcome;
/// no later path is taken. Any other failure of a rescue is reported and
/// the run goes on.
pub proof fn law_rescue_abort_ends_run(
    pre: Processing,
    error: Error,
    mid: Processing,
    first: Command,
    post: Processing,
    second: Command,
)
    requires
        pre.stage is Rescuing,
        Processing::spec_step(pre, Event::Rescued(Err(error)), mid, first),
        Processing::spec_step(mid, Event::Acknowledged, post, second),
    ensures
        first matches Command::ReportErr(p, e) && e == error && p@ == pre.paths@[pre.stage->Rescuing_0 as int]@,
        error is Abort ==> second == Command::Finish(Err(Error::Abort)) && post.stage is Finished,
        !(error is Abort) ==> !(second is Finish) || second == Command::Finish(Ok(())),
{
}

/// The paths are processed in order, each once: the first inspected path is
/// the first one, and each next one follows the path just reported.
pub proof fn law_paths_in_order(pre: Processing, event: Event, post: Processing, cmd: Command)
    requires
        pre.wf(),
        Processing::spec_step(pre, event, post, cmd),
        cmd is Inspect,
    ensures
        post.stage matches Stage::Inspecting(i) && i < pre.paths@.len() && cmd->Inspect_0@ == pre.paths@[i as int]@
            && (pre.stage is Setup ==> i == 0) && (pre.stage matches Stage::Reporting { index, abort } ==> i
            == index + 1 && !abort) && (pre.stage is Setup || pre.stage is Reporting),
{
    match (pre.stage, event) {
        (Stage::Inspecting(i), Event::Inspected(facts)) => {
            if facts.exists {
                let c = choose|cands: Vec<Option<crate::replacement::Replacement>>|
                    Processing::valid_candidates(pre.matchers@, pre.paths@[i as int]@, facts, cands@)
                        && #[trigger] Processing::spec_search(pre.matchers@, pre.paths@, i as int, 0, cands, false, post, cmd);
            }
        },
        _ => {},
    }
}

/// The user is asked to rescue a path only when it has just been inspected
/// and no matcher that is not ignored gave a rename for it; the rescue is
/// about that path having no match.
pub proof fn law_rescue_only_without_match(pre: Processing, event: Event, post: Processing, cmd: Command)
    requires
        pre.wf(),
        Processing::spec_step(pre, event, post, cmd),
        cmd is Rescue,
    ensures
        pre.stage matches Stage::Inspecting(i) && (cmd->Rescue_0 matches Error::NoMatch(p) && p@ == pre.paths@[i as int]@),
        event matches Event::Inspected(facts) && facts.exists,
        post.stage matches Stage::Rescuing(i) && (pre.stage == Stage::Inspecting(i)),
{
    match (pre.stage, event) {
        (Stage::Inspecting(i), Event::Inspected(facts)) => {
            if facts.exists {
                let c = choose|cands: Vec<Option<crate::replacement::Replacement>>|
                    Processing::valid_candidates(pre.matchers@, pre.paths@[i as int]@, facts, cands@)
                        && #[trigger] Processing::spec_search(pre.matchers@, pre.paths@, i as int, 0, cands, false, post, cmd);
            }
        },
        _ => {},
    }
}

/// A rename is performed only when the user accepted the rename put to them
/// or gave one (in a decision or a rescue), or when a confirmed matcher that
/// is not ignored found it for the path: at the inspection, or after the user
/// refused or ignored the rename of an earlier matcher.
pub proof fn law_renames_come_from_matchers_or_user(pre: Processing, event: Event, post: Processing, cmd: Command)
    requires
        pre.wf(),
        Processing::spec_step(pre, event, post, cmd),
        cmd is Execute,
    ensures
        match (pre.stage, event) {
            (Stage::Inspecting(i), Event::Inspected(facts)) => exists|j: int|
                0 <= j < pre.matchers@.len() && pre.matchers@[j].confirmed && !pre.matchers@[j].ignored
                    && #[trigger] pre.matchers@[j].matcher.spec_outcome(pre.paths@[i as int]@, facts, cmd->Execute_0@),
            (Stage::Confirming { index, matcher, candidates }, Event::Confirmed(conf)) => {
                ||| (conf is Accept || conf is Always) && candidates@[matcher as int] == Some(cmd->Execute_0)
                ||| conf == Confirmation::Replace(cmd->Execute_0)
                ||| (conf is Refuse || conf is Ignore) && exists|j: int|
                    matcher < j < pre.matchers@.len() && pre.matchers@[j].confirmed && !pre.matchers@[j].ignored
                        && #[trigger] candidates@[j] == Some(cmd->Execute_0)
            },
            (Stage::Rescuing(_), Event::Rescued(res)) => res == Ok::<crate::replacement::Replacement, Error>(
                cmd->Execute_0,
            ),
            _ => false,
        },
{
    match (pre.stage, event) {
        (Stage::Inspecting(i), Event::Inspected(facts)) => {
            let path = pre.paths@[i as int]@;
            let c = choose|cands: Vec<Option<crate::replacement::Replacement>>|
                Processing::valid_candidates(pre.matchers@, path, facts, cands@)
                    && #[trigger] Processing::spec_search(pre.matchers@, pre.paths@, i as int, 0, cands, false, post, cmd);
            crate::processing::lemma_first_candidate(pre.matchers@, c@, 0);
            let j = crate::processing::first_candidate(pre.matchers@, c@, 0);
            assert(pre.matchers@[j].matcher.spec_outcome(path, facts, cmd->Execute_0@));
        },
        (Stage::Confirming { index, matcher, candidates }, Event::Confirmed(conf)) => {
            let m = pre.matchers@[matcher as int];
            match conf {
                Confirmation::Refuse => {
                    crate::processing::lemma_first_candidate(pre.matchers@, candidates@, matcher + 1);
                    let j = crate::processing::first_candidate(pre.matchers@, candidates@, matcher + 1);
                    if j >= 0 {
                        assert(candidates@[j] is Some);
                    }
                },
                Confirmation::Ignore => {
                    let ms = pre.matchers@.update(matcher as int, Processing::flagged(m, m.confirmed, true));
                    crate::processing::lemma_first_candidate(ms, candidates@, matcher + 1);
                    let j = crate::processing::first_candidate(ms, candidates@, matcher + 1);
                    if j >= 0 {
                        assert(ms[j] == pre.matchers@[j]);
                        assert(candidates@[j] is Some);
                    }
                },
                _ => {},
            }
        },
        _ => {},
    }
}

/// The step taken at `k` in a run: from the well-formed state at `k`, the
/// event at `k` leads to the state at `k + 1` and gives the command at `k`.
pub open spec fn step_at(states: Seq<Processing>, events: Seq<Event>, cmds: Seq<Command>, k: int) -> bool {
    states[k].wf() && Processing::spec_step(states[k], events[k], states[k + 1], cmds[k])
}

/// A run: states, the events between them and the commands each step gave.
pub open spec fn is_run(states: Seq<Processing>, events: Seq<Event>, cmds: Seq<Command>) -> bool {
    &&& states.len() == events.len() + 1
    &&& cmds.len() == events.len()
    &&& forall|k: int| 0 <= k < events.len() ==> #[trigger] step_at(states, events, cmds, k)
}

/// Through any run of steps, what the user decided about a matcher holds
/// for every later path: a matcher confirmed (by "Always") stays confirmed,
/// a matcher ignored stays ignored, and each matcher stays where it is.
pub proof fn law_decisions_last_through_run(states: Seq<Processing>, events: Seq<Event>, cmds: Seq<Command>)
    requires
        is_run(states, events, cmds),
    ensures
        forall|k: int| 0 <= k < states.len() ==> #[trigger] states[k].matchers@.len() == states[0].matchers@.len(),
        forall|k: int, j: int|
            0 <= k < states.len() && 0 <= j < states[0].matchers@.len() ==> {
                &&& #[trigger] states[k].matchers@[j].matcher == states[0].matchers@[j].matcher
                &&& states[0].matchers@[j].confirmed ==> states[k].matchers@[j].confirmed
                &&& states[0].matchers@[j].ignored ==> states[k].matchers@[j].ignored
            },
{
    assert forall|k: int| 0 <= k < states.len() implies #[trigger] states[k].matchers@.len()
        == states[0].matchers@.len() by {
        lemma_decisions_upto(states, events, cmds, k);
    }
    assert forall|k: int, j: int| 0 <= k < states.len() && 0 <= j < states[0].matchers@.len() implies {
        &&& #[trigger] states[k].matchers@[j].matcher == states[0].matchers@[j].matcher
        &&& states[0].matchers@[j].confirmed ==> states[k].matchers@[j].confirmed
        &&& states[0].matchers@[j].ignored ==> states[k].matchers@[j].ignored
    } by {
        lemma_decisions_upto(states, events, cmds, k);
    }
}

/// The decisions of the first state hold in the state at `m`.
proof fn lemma_decisions_upto(states: Seq<Processing>, events: Seq<Event>, cmds: Seq<Command>, m: int)
    requires
        is_run(states, events, cmds),
        0 <= m < states.len(),
    ensures
        states[m].matchers@.len() == states[0].matchers@.len(),
        forall|j: int|
            0 <= j < states[0].matchers@.len() ==> {
                &&& #[trigger] states[m].matchers@[j].matcher == states[0].matchers@[j].matcher
                &&& states[0].matchers@[j].confirmed ==> states[m].matchers@[j].confirmed
                &&& states[0].matchers@[j].ignored ==> states[m].matchers@[j].ignored
            },
    decreases m,
{
    if m > 0 {
        lemma_decisions_upto(states, events, cmds, m - 1);
        assert(step_at(states, events, cmds, m - 1));
        assert(states[m - 1 + 1] == states[m]);
        law_decisions_last(states[m - 1], events[m - 1], states[m], cmds[m - 1]);
        assert forall|j: int| 0 <= j < states[0].matchers@.len() implies {
            &&& #[trigger] states[m].matchers@[j].matcher == states[0].matchers@[j].matcher
            &&& states[0].matchers@[j].confirmed ==> states[m].matchers@[j].confirmed
            &&& states[0].matchers@[j].ignored ==> states[m].matchers@[j].ignored
        } by {
            assert(states[m - 1].matchers@[j].matcher == states[0].matchers@[j].matcher);
        }
    }
}

/// Through any run, a matcher that was confirmed (by "Always") or ignored
/// is never put to the user again: no rename of it is asked for, whatever
/// path comes later.
pub proof fn law_decided_matcher_never_asks(states: Seq<Processing>, events: Seq<Event>, cmds: Seq<Command>, j: int)
    requires
        is_run(states, events, cmds),
        0 <= j < states[0].matchers@.len(),
        states[0].matchers@[j].confirmed || states[0].matchers@[j].ignored,
    ensures
        forall|k: int|
            0 <= k < events.len() && #[trigger] step_at(states, events, cmds, k) && cmds[k] is Confirm ==> !(
            states[k + 1].stage matches Stage::Confirming { matcher, .. } && matcher == j),
{
    assert forall|k: int|
        0 <= k < events.len() && #[trigger] step_at(states, events, cmds, k) && cmds[k] is Confirm implies !(
        states[k + 1].stage matches Stage::Confirming { matcher, .. } && matcher == j) by {
        lemma_decisions_upto(states, events, cmds, k + 1);
        assert(states[k + 1].matchers@[j].matcher == states[0].matchers@[j].matcher);
        law_only_unconfirmed_matchers_ask(states[k], events[k], states[k + 1], cmds[k]);
    }
}

/// When a path exists and a matcher that is not ignored surely gives a
/// rename for it, while every matcher before it that is not ignored surely
/// gives none, that matcher's rename is what comes of the inspection: it is
/// used at once when the matcher is confirmed, and put to the user otherwise.
pub proof fn law_certain_rename_is_used(pre: Processing, facts: PathFacts, post: Processing, cmd: Command, j: int)
    requires
        pre.wf(),
        pre.stage is Inspecting,
        facts.exists,
        Processing::spec_step(pre, Event::Inspected(facts), post, cmd),
        0 <= j < pre.matchers@.len(),
        !pre.matchers@[j].ignored,
        pre.matchers@[j].matcher.spec_surely_gives(pre.paths@[pre.stage->Inspecting_0 as int]@, facts),
        forall|k: int|
            0 <= k < j ==> pre.matchers@[k].ignored || #[trigger] pre.matchers@[k].matcher.spec_no_outcome(
                pre.paths@[pre.stage->Inspecting_0 as int]@,
                facts,
            ),
    ensures
        pre.matchers@[j].confirmed ==> post.stage == Stage::Executing(pre.stage->Inspecting_0) && (
        cmd matches Command::Execute(r) && pre.matchers@[j].matcher.spec_outcome(
            pre.paths@[pre.stage->Inspecting_0 as int]@,
            facts,
            r@,
        )),
        !pre.matchers@[j].confirmed ==> (post.stage matches Stage::Confirming { index, matcher, .. } && index
            == pre.stage->Inspecting_0 && matcher == j) && (cmd matches Command::Confirm(r)
            && pre.matchers@[j].matcher.spec_outcome(pre.paths@[pre.stage->Inspecting_0 as int]@, facts, r@)),
{
    let i = pre.stage->Inspecting_0;
    let path = pre.paths@[i as int]@;
    let ms = pre.matchers@;
    let c = choose|cands: Vec<Option<crate::replacement::Replacement>>|
        Processing::valid_candidates(ms, path, facts, cands@)
            && #[trigger] Processing::spec_search(ms, pre.paths@, i as int, 0, cands, false, post, cmd);
    assert(ms[j].matcher.spec_gives(path, facts, crate::replacement::rep_view_opt(c@[j])));
    assert(c@[j] is Some) by {
        if let crate::matcher::Matcher::Pattern(p) = ms[j].matcher {
            let w = choose|resolved: Option<crate::matcher::LocalDateTime>|
                p.resolved_for_path(facts.spec_resolved(path), resolved) && crate::replacement::rep_view_opt(c@[j])
                    == #[trigger] p.spec_check_with(facts.spec_resolved(path), resolved);
            assert(p.spec_check_with(facts.spec_resolved(path), w) is Some);
        }
    }
    crate::processing::lemma_first_candidate(ms, c@, 0);
    let f = crate::processing::first_candidate(ms, c@, 0);
    if f != j {
        if f == -1 || f > j {
            assert(ms[j].ignored || c@[j] is None);
        } else {
            assert(ms[f].ignored || ms[f].matcher.spec_no_outcome(path, facts));
        }
    }
}

/// When a path exists and every matcher that is not ignored surely gives
/// no rename for it, the path has no match, and the user is asked to rescue
/// it.
pub proof fn law_no_rename_goes_to_rescue(pre: Processing, facts: PathFacts, post: Processing, cmd: Command)
    requires
        pre.wf(),
        pre.stage is Inspecting,
        facts.exists,
        Processing::spec_step(pre, Event::Inspected(facts), post, cmd),
        forall|k: int|
            0 <= k < pre.matchers@.len() ==> pre.matchers@[k].ignored
                || #[trigger] pre.matchers@[k].matcher.spec_no_outcome(
                pre.paths@[pre.stage->Inspecting_0 as int]@,
                facts,
            ),
    ensures
        post.stage == Stage::Rescuing(pre.stage->Inspecting_0),
        cmd matches Command::Rescue(Error::NoMatch(p)) && p@ == pre.paths@[pre.stage->Inspecting_0 as int]@,
{
    let i = pre.stage->Inspecting_0;
    let path = pre.paths@[i as int]@;
    let ms = pre.matchers@;
    let c = choose|cands: Vec<Option<crate::replacement::Replacement>>|
        Processing::valid_candidates(ms, path, facts, cands@)
            && #[trigger] Processing::spec_search(ms, pre.paths@, i as int, 0, cands, false, post, cmd);
    crate::processing::lemma_first_candidate(ms, c@, 0);
    let f = crate::processing::first_candidate(ms, c@, 0);
    if f != -1 {
        assert(ms[f].ignored || ms[f].matcher.spec_no_outcome(path, facts));
    }
}

/// The index of the path that a stage is about: `-1` before the first path,
/// `-2` once the run is over.
pub open spec fn at_path(stage: Stage) -> int {
    match stage {
        Stage::Ready => -1,
        Stage::Setup => -1,
        Stage::Inspecting(i) => i as int,
        Stage::Confirming { index, .. } => index as int,
        Stage::Rescuing(i) => i as int,
        Stage::Executing(i) => i as int,
        Stage::Reporting { index, .. } => index as int,
        Stage::Finished => -2,
    }
}

/// How many of the first `k` commands ask to inspect a path.
pub open spec fn inspections(cmds: Seq<Command>, k: int) -> int
    decreases k,
{
    if k <= 0 {
        0
    } else {
        inspections(cmds, k - 1) + if cmds[k - 1] is Inspect {
            1int
        } else {
            0int
        }
    }
}

/// A step stays with the path at hand, or moves to the next one exactly
/// when it asks to inspect it; a failure it reports is about the path at
/// hand.
proof fn lemma_step_at_path(pre: Processing, event: Event, post: Processing, cmd: Command)
    requires
        pre.wf(),
        Processing::spec_step(pre, event, post, cmd),
    ensures
        post.paths@ == pre.paths@,
        !(pre.stage is Finished),
        !(post.stage is Finished) ==> at_path(post.stage) == at_path(pre.stage) + if cmd is Inspect {
            1int
        } else {
            0int
        },
        cmd matches Command::Inspect(p) ==> post.stage == Stage::Inspecting(at_path(post.stage) as usize)
            && 0 <= at_path(post.stage) < pre.paths@.len() && p@ == pre.paths@[at_path(post.stage)]@,
        cmd matches Command::ReportErr(p, _) ==> 0 <= at_path(pre.stage) < pre.paths@.len() && p@
            == pre.paths@[at_path(pre.stage)]@,
{
    law_decisions_last(pre, event, post, cmd);
    match (pre.stage, event) {
        (Stage::Inspecting(i), Event::Inspected(facts)) => {
            if facts.exists {
                let c = choose|cands: Vec<Option<crate::replacement::Replacement>>|
                    Processing::valid_candidates(pre.matchers@, pre.paths@[i as int]@, facts, cands@)
                        && #[trigger] Processing::spec_search(pre.matchers@, pre.paths@, i as int, 0, cands, false, post, cmd);
            }
        },
        _ => {},
    }
}

/// Through a run from its start, the paths are taken in order, each once:
/// the `n`-th request to inspect a path is about the `n`-th path, every
/// state until the end is about the path last asked for, and every failure
/// reported is about that path.
pub proof fn law_paths_in_order_through_run(states: Seq<Processing>, events: Seq<Event>, cmds: Seq<Command>)
    requires
        is_run(states, events, cmds),
        states[0].stage is Ready,
    ensures
        forall|k: int|
            0 <= k < states.len() && !(#[trigger] states[k].stage is Finished) ==> at_path(states[k].stage)
                == inspections(cmds, k) - 1,
        forall|k: int|
            0 <= k < events.len() && #[trigger] step_at(states, events, cmds, k) ==> {
                &&& cmds[k] matches Command::Inspect(p) ==> 0 <= inspections(cmds, k) < states[0].paths@.len()
                    && p@ == states[0].paths@[inspections(cmds, k)]@
                &&& cmds[k] matches Command::ReportErr(p, _) ==> 0 <= inspections(cmds, k) - 1
                    < states[0].paths@.len() && p@ == states[0].paths@[inspections(cmds, k) - 1]@
            },
{
    assert forall|k: int| 0 <= k < states.len() && !(#[trigger] states[k].stage is Finished) implies at_path(
        states[k].stage,
    ) == inspections(cmds, k) - 1 by {
        lemma_paths_upto(states, events, cmds, k);
    }
    assert forall|k: int| 0 <= k < events.len() && #[trigger] step_at(states, events, cmds, k) implies {
        &&& cmds[k] matches Command::Inspect(p) ==> 0 <= inspections(cmds, k) < states[0].paths@.len() && p@
            == states[0].paths@[inspections(cmds, k)]@
        &&& cmds[k] matches Command::ReportErr(p, _) ==> 0 <= inspections(cmds, k) - 1 < states[0].paths@.len()
            && p@ == states[0].paths@[inspections(cmds, k) - 1]@
    } by {
        lemma_paths_upto(states, events, cmds, k);
        lemma_step_at_path(states[k], events[k], states[k + 1], cmds[k]);
        if cmds[k] is Inspect {
            lemma_paths_upto(states, events, cmds, k + 1);
        }
    }
}

/// The paths stay, and the state at `m` is about the path last asked for.
proof fn lemma_paths_upto(states: Seq<Processing>, events: Seq<Event>, cmds: Seq<Command>, m: int)
    requires
        is_run(states, events, cmds),
        states[0].stage is Ready,
        0 <= m < states.len(),
    ensures
        states[m].paths@ == states[0].paths@,
        !(states[m].stage is Finished) ==> at_path(states[m].stage) == inspections(cmds, m) - 1,
    decreases m,
{
    if m > 0 {
        lemma_paths_upto(states, events, cmds, m - 1);
        assert(step_at(states, events, cmds, m - 1));
        assert(states[m - 1 + 1] == states[m]);
        lemma_step_at_path(states[m - 1], events[m - 1], states[m], cmds[m - 1]);
    }
}

/// An ignored matcher is never consulted again: no rename of it is put to
/// the user, and it stays ignored.
pub proof fn law_ignored_matcher_never_asks(pre: Processing, event: Event, post: Processing, cmd: Command, j: int)
    requires
        pre.wf(),
        Processing::spec_step(pre, event, post, cmd),
        0 <= j < pre.matchers@.len(),
        pre.matchers@[j].ignored,
    ensures
        post.matchers@[j].ignored,
        cmd is Confirm ==> !(post.stage matches Stage::Confirming { matcher, .. } && matcher == j),
{
    law_decisions_last(pre, event, post, cmd);
    if cmd is Confirm {
        law_only_unconfirmed_matchers_ask(pre, event, post, cmd);
    }
}

} // verus!
