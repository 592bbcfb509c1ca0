use vstd::prelude::*;

use crate::render::{engine_diagnostic, source_document, spec_diagnostic, spec_document, OutcomeView, RenderOutcome};

verus! {

/// Where one render stands. A workspace is held from the moment it was
/// created until its release is asked for.
#[derive(PartialEq, Eq, Structural, Clone, Copy, Debug)]
pub enum Phase {
    /// A workspace is being created.
    Acquire,
    /// The source document is being written into the workspace.
    WriteSource,
    /// The engine is running on the workspace.
    RunEngine,
    /// The engine's image is being read.
    ReadArtifact,
    /// The outcome is known; the workspace is being removed.
    Release,
    /// The outcome has been handed out.
    Done,
}

/// What the caller reports after performing an action.
#[derive(Clone, Debug, PartialEq, Eq)]
pub enum Event {
    /// The action succeeded (a workspace created, a file written, a workspace removed).
    Completed,
    /// The action failed on the bot's side, with the detail for the operator.
    Failed(String),
    /// The engine ran to its end.
    EngineExited { success: bool, stderr: Vec<u8> },
    /// The engine's image was read.
    ArtifactRead(Vec<u8>),
}

/// What the caller is asked to do next.
#[derive(Clone, Debug, PartialEq, Eq)]
pub enum Action {
    /// Create a fresh, uniquely named workspace directory.
    CreateWorkspace,
    /// Write this document as the workspace's source file.
    WriteSource(String),
    /// Run the engine on the workspace's source file, towards its output file.
    RunEngine,
    /// Read the workspace's output file.
    ReadArtifact,
    /// Remove the workspace and everything in it.
    ReleaseWorkspace,
    /// The render is over; this is its outcome.
    Finish(RenderOutcome),
}

pub enum EventView {
    Completed,
    Failed(Seq<char>),
    EngineExited(bool, Seq<u8>),
    ArtifactRead(Seq<u8>),
}

pub enum ActionView {
    CreateWorkspace,
    WriteSource(Seq<char>),
    RunEngine,
    ReadArtifact,
    ReleaseWorkspace,
    Finish(OutcomeView),
}

impl View for Event {
    type V = EventView;

    open spec fn view(&self) -> EventView {
        match self {
            Event::Completed => EventView::Completed,
            Event::Failed(d) => EventView::Failed(d@),
            Event::EngineExited { success, stderr } => EventView::EngineExited(*success, stderr@),
            Event::ArtifactRead(b) => EventView::ArtifactRead(b@),
        }
    }
}

impl View for Action {
    type V = ActionView;

    open spec fn view(&self) -> ActionView {
        match self {
            Action::CreateWorkspace => ActionView::CreateWorkspace,
            Action::WriteSource(d) => ActionView::WriteSource(d@),
            Action::RunEngine => ActionView::RunEngine,
            Action::ReadArtifact => ActionView::ReadArtifact,
            Action::ReleaseWorkspace => ActionView::ReleaseWorkspace,
            Action::Finish(o) => ActionView::Finish(o@),
        }
    }
}

pub struct SessionView {
    pub phase: Phase,
    pub document: Seq<char>,
    pub outcome: Option<OutcomeView>,
}

/// The decisions of one render, from the workspace's creation to its removal.
pub struct RenderSession {
    phase: Phase,
    document: String,
    outcome: Option<RenderOutcome>,
}

impl View for RenderSession {
    type V = SessionView;

    closed spec fn view(&self) -> SessionView {
        SessionView {
            phase: self.phase,
            document: self.document@,
            outcome: match self.outcome {
                Some(o) => Some(o@),
                None => None,
            },
        }
    }
}

/// An outcome is kept exactly while the workspace is being removed.
pub open spec fn session_wf(s: SessionView) -> bool {
    s.outcome is Some <==> s.phase == Phase::Release
}

/// A workspace exists and its release has not been asked for yet.
pub open spec fn holds_workspace(p: Phase) -> bool {
    p == Phase::WriteSource || p == Phase::RunEngine || p == Phase::ReadArtifact
}

/// The operator's detail of an event that is not the one a phase waits for.
pub open spec fn failure_detail(e: EventView) -> Seq<char> {
    match e {
        EventView::Failed(d) => d,
        _ => Seq::empty(),
    }
}

/// The session for `expression`, before its workspace exists.
pub open spec fn initial_session(expression: Seq<char>) -> SessionView {
    SessionView { phase: Phase::Acquire, document: spec_document(expression), outcome: None }
}

/// Keep the outcome and ask for the workspace's removal.
pub open spec fn releasing(s: SessionView, o: OutcomeView) -> (SessionView, ActionView) {
    (SessionView { phase: Phase::Release, outcome: Some(o), ..s }, ActionView::ReleaseWorkspace)
}

/// One decision: the session after event `e`, and the action that follows.
/// Without a workspace a failure ends the render at once; with one, every way
/// out passes through its removal.
pub open spec fn next(s: SessionView, e: EventView) -> (SessionView, ActionView) {
    match s.phase {
        Phase::Acquire => match e {
            EventView::Completed => (
                SessionView { phase: Phase::WriteSource, ..s },
                ActionView::WriteSource(s.document),
            ),
            _ => {
                let o = OutcomeView::InfrastructureError(failure_detail(e));
                (SessionView { phase: Phase::Done, ..s }, ActionView::Finish(o))
            },
        },
        Phase::WriteSource => match e {
            EventView::Completed => (SessionView { phase: Phase::RunEngine, ..s }, ActionView::RunEngine),
            _ => releasing(s, OutcomeView::InfrastructureError(failure_detail(e))),
        },
        Phase::RunEngine => match e {
            EventView::EngineExited(true, _) => (
                SessionView { phase: Phase::ReadArtifact, ..s },
                ActionView::ReadArtifact,
            ),
            EventView::EngineExited(false, stderr) => releasing(
                s,
                OutcomeView::InputError(spec_diagnostic(stderr)),
            ),
            _ => releasing(s, OutcomeView::InfrastructureError(failure_detail(e))),
        },
        Phase::ReadArtifact => match e {
            EventView::ArtifactRead(b) => releasing(s, OutcomeView::Artifact(b)),
            _ => releasing(s, OutcomeView::InfrastructureError(failure_detail(e))),
        },
        Phase::Release => (
            SessionView { phase: Phase::Done, outcome: None, ..s },
            ActionView::Finish(s.outcome.unwrap()),
        ),
        Phase::Done => (s, ActionView::Finish(OutcomeView::InfrastructureError(Seq::empty()))),
    }
}

fn failure_of(e: Event) -> (r: RenderOutcome)
    ensures
        r@ == OutcomeView::InfrastructureError(failure_detail(e@)),
{
    match e {
        Event::Failed(d) => RenderOutcome::InfrastructureError(d),
        _ => RenderOutcome::InfrastructureError(String::new()),
    }
}

impl RenderSession {
    pub closed spec fn wf(&self) -> bool {
        session_wf(self@)
    }

    /// A render of `expression`, and its first action: create the workspace.
    pub fn start(expression: &str) -> (r: (RenderSession, Action))
        ensures
            r.0.wf(),
            r.0@ == initial_session(expression@),
            r.1@ == ActionView::CreateWorkspace,
    {
        let s = RenderSession { phase: Phase::Acquire, document: source_document(expression), outcome: None };
        (s, Action::CreateWorkspace)
    }

    pub fn phase(&self) -> (r: Phase)
        ensures
            r == self@.phase,
    {
        self.phase
    }

    /// Whether the outcome has been handed out.
    pub fn is_done(&self) -> (r: bool)
        ensures
            r <==> self@.phase == Phase::Done,
    {
        matches!(self.phase, Phase::Done)
    }

    fn release_with(&mut self, o: RenderOutcome) -> (r: Action)
        requires
            old(self).phase != Phase::Release,
        ensures
            (final(self)@, r@) == releasing(old(self)@, o@),
    {
        self.phase = Phase::Release;
        self.outcome = Some(o);
        Action::ReleaseWorkspace
    }

    /// Takes in what came of the last action and decides the next one.
    pub fn step(&mut self, event: Event) -> (r: Action)
        requires
            old(self).wf(),
            old(self)@.phase != Phase::Done,
        ensures
            final(self).wf(),
            (final(self)@, r@) == next(old(self)@, event@),
    {
        match self.phase {
            Phase::Acquire => match event {
                Event::Completed => {
                    self.phase = Phase::WriteSource;
                    Action::WriteSource(self.document.clone())
                },
                _ => {
                    self.phase = Phase::Done;
                    Action::Finish(failure_of(event))
                },
            },
            Phase::WriteSource => match event {
                Event::Completed => {
                    self.phase = Phase::RunEngine;
                    Action::RunEngine
                },
                _ => self.release_with(failure_of(event)),
            },
            Phase::RunEngine => match event {
                Event::EngineExited { success: true, stderr: _ } => {
                    self.phase = Phase::ReadArtifact;
                    Action::ReadArtifact
                },
                Event::EngineExited { success: false, stderr } => {
                    self.release_with(RenderOutcome::InputError(engine_diagnostic(stderr)))
                },
                _ => self.release_with(failure_of(event)),
            },
            Phase::ReadArtifact => match event {
                Event::ArtifactRead(b) => self.release_with(RenderOutcome::Artifact(b)),
                _ => self.release_with(failure_of(event)),
            },
            _ => {
                self.phase = Phase::Done;
                match self.outcome.take() {
                    Some(o) => Action::Finish(o),
                    None => Action::Finish(RenderOutcome::InfrastructureError(String::new())),
                }
            },
        }
    }
}

} // verus!
