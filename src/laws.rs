use vstd::prelude::*;
use vstd::utf8::{decode_utf8, valid_utf8};

use crate::render::{spec_reply, OutcomeView, ReplyView, GENERIC_ERROR};
use crate::session::{holds_workspace, initial_session, next, session_wf, ActionView, EventView, Phase, SessionView};
use crate::text::is_first_line;

verus! {

/// The session and the actions after feeding `events` to `s` one by one,
/// stopping once the outcome has been handed out.
pub open spec fn run(s: SessionView, events: Seq<EventView>) -> (SessionView, Seq<ActionView>)
    decreases events.len(),
{
    if events.len() == 0 || s.phase == Phase::Done {
        (s, Seq::empty())
    } else {
        let (s1, a) = next(s, events[0]);
        let (sf, rest) = run(s1, events.drop_first());
        (sf, seq![a] + rest)
    }
}

/// How many times `actions` asks for a workspace's removal.
pub open spec fn release_count(actions: Seq<ActionView>) -> nat
    decreases actions.len(),
{
    if actions.len() == 0 {
        0
    } else {
        (if actions[0] is ReleaseWorkspace { 1nat } else { 0nat }) + release_count(actions.drop_first())
    }
}

/// How many more events a session in phase `p` takes at most to finish.
pub open spec fn steps_left(p: Phase) -> nat {
    match p {
        Phase::Acquire => 5,
        Phase::WriteSource => 4,
        Phase::RunEngine => 3,
        Phase::ReadArtifact => 2,
        Phase::Release => 1,
        Phase::Done => 0,
    }
}

proof fn lemma_run_from(s: SessionView, events: Seq<EventView>)
    requires
        session_wf(s),
    ensures
        ({
            let (sf, acts) = run(s, events);
            &&& events.len() >= steps_left(s.phase) ==> sf.phase == Phase::Done
            &&& release_count(acts) <= (if holds_workspace(s.phase) || s.phase == Phase::Acquire { 1nat } else { 0nat })
            &&& sf.phase == Phase::Done && holds_workspace(s.phase) ==> release_count(acts) == 1
            &&& sf.phase == Phase::Done && !holds_workspace(s.phase) && s.phase != Phase::Acquire
                ==> release_count(acts) == 0
            &&& sf.phase == Phase::Done && s.phase == Phase::Acquire ==> release_count(acts) == (
                if events[0] is Completed { 1nat } else { 0nat })
        }),
    decreases events.len(),
{
    if events.len() > 0 && s.phase != Phase::Done {
        let (s1, a) = next(s, events[0]);
        let (sf, rest) = run(s1, events.drop_first());
        assert(session_wf(s1));
        lemma_run_from(s1, events.drop_first());
        assert((seq![a] + rest).drop_first() =~= rest);
    }
}

/// Every render that starts creating a workspace finishes within five
/// reported events; its workspace's removal is asked for at most once, and a
/// finished render asked for it exactly once if the workspace was created and
/// never otherwise. Nothing is handed out while a workspace is held.
pub proof fn law_workspace_released_once(expression: Seq<char>, events: Seq<EventView>)
    ensures
        ({
            let (sf, acts) = run(initial_session(expression), events);
            &&& events.len() >= 5 ==> sf.phase == Phase::Done
            &&& release_count(acts) <= 1
            &&& sf.phase == Phase::Done ==> release_count(acts) == (
                if events[0] is Completed { 1nat } else { 0nat })
        }),
{
    lemma_run_from(initial_session(expression), events);
}

/// A step that hands out an outcome never leaves a workspace behind: it comes
/// from a session that holds none, and ends the session.
pub proof fn law_finish_only_without_workspace(s: SessionView, e: EventView)
    requires
        session_wf(s),
        s.phase != Phase::Done,
    ensures
        next(s, e).1 is Finish ==> !holds_workspace(s.phase) && next(s, e).0.phase == Phase::Done,
        holds_workspace(s.phase) && !holds_workspace(next(s, e).0.phase) ==> next(s, e).1 is ReleaseWorkspace,
{
}

/// The image handed out is exactly the bytes read from the engine's output.
pub proof fn law_artifact_is_engine_output(s: SessionView, bytes: Seq<u8>, then: EventView)
    requires
        session_wf(s),
        s.phase == Phase::ReadArtifact,
    ensures
        next(s, EventView::ArtifactRead(bytes)).1 is ReleaseWorkspace,
        next(next(s, EventView::ArtifactRead(bytes)).0, then).1 == ActionView::Finish(
            OutcomeView::Artifact(bytes),
        ),
{
}

/// After a failed engine run the user's message is the first line of the
/// engine's error stream, holds no newline, and is empty when that stream is
/// not UTF-8.
pub proof fn law_input_error_is_first_line(s: SessionView, stderr: Seq<u8>, then: EventView)
    requires
        session_wf(s),
        s.phase == Phase::RunEngine,
    ensures
        ({
            let (s1, a1) = next(s, EventView::EngineExited(false, stderr));
            let a2 = next(s1, then).1;
            &&& a1 is ReleaseWorkspace
            &&& a2 matches ActionView::Finish(OutcomeView::InputError(m)) && {
                &&& valid_utf8(stderr) ==> is_first_line(decode_utf8(stderr), m)
                &&& !valid_utf8(stderr) ==> m.len() == 0
                &&& forall|i: int| 0 <= i < m.len() ==> m[i] != '\n'
            }
        }),
{
    if valid_utf8(stderr) {
        crate::text::lemma_first_line_is_first_line(decode_utf8(stderr));
    }
}

/// A failure on the bot's side, such as an engine that cannot be started,
/// reaches the user only as the generic message, whatever its detail.
pub proof fn law_infrastructure_error_is_generic(s: SessionView, detail: Seq<char>, then: EventView)
    requires
        session_wf(s),
        s.phase == Phase::RunEngine,
    ensures
        ({
            let a2 = next(next(s, EventView::Failed(detail)).0, then).1;
            &&& a2 == ActionView::Finish(OutcomeView::InfrastructureError(detail))
            &&& spec_reply(OutcomeView::InfrastructureError(detail)) == ReplyView::Text(GENERIC_ERROR@)
        }),
{
}

} // verus!
