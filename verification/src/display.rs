//! The display: how it starts up, and how queued events reach the handler.

use crate::handler::{delivers, lemma_delivers_chain, EventHandler};
use crate::options::{ContextConfig, Options, Placement, VideoMode, WindowHint, WindowRequest};
use std::collections::VecDeque;
use vstd::prelude::*;

verus! {

/// Why a display could not be opened.
#[derive(Clone, Copy, Debug, PartialEq, Eq)]
pub enum StartupError {
    /// The window system library did not initialise.
    Init,
    /// There is no primary monitor.
    NoPrimaryMonitor,
    /// The window could not be created.
    NoWindow,
    /// The primary monitor has no video mode.
    NoVideoMode,
}

impl StartupError {
    /// The diagnostic that goes with the error.
    pub open spec fn diagnostic(self) -> Seq<char> {
        match self {
            StartupError::Init => "Could not initialize the GLFW!"@,
            StartupError::NoPrimaryMonitor => "Could not get the primary monitor!"@,
            StartupError::NoWindow => "Could not create the window!"@,
            StartupError::NoVideoMode => "Could not get the vidmode of the monitor!"@,
        }
    }

    /// Returns the diagnostic to end the process with.
    pub fn message(&self) -> (text: &'static str)
        ensures
            text@ == self.diagnostic(),
    {
        match self {
            StartupError::Init => "Could not initialize the GLFW!",
            StartupError::NoPrimaryMonitor => "Could not get the primary monitor!",
            StartupError::NoWindow => "Could not create the window!",
            StartupError::NoVideoMode => "Could not get the vidmode of the monitor!",
        }
    }
}

/// How far a display has come.
#[derive(Clone, Copy, Debug, PartialEq, Eq)]
pub enum Stage {
    /// Nothing has been asked of the window system yet.
    Created,
    /// The window system library is being initialised.
    Initializing,
    /// The primary monitor is being looked up.
    FindingMonitor,
    /// The window is being created.
    CreatingWindow,
    /// The video mode of the primary monitor is being read.
    ReadingVideoMode,
    /// The window is up and its context is set up.
    Open,
    /// Start-up was given up.
    Failed(StartupError),
}

/// What came of the requests that the display made last.
#[derive(Clone, Copy, Debug, PartialEq, Eq)]
pub enum Report {
    /// Every request was carried out.
    Succeeded,
    /// The video mode that was asked for.
    VideoMode(VideoMode),
    /// The last request could not be carried out.
    Failed,
}

/// One request to the window system or to the graphics API.
#[derive(Clone, Debug, PartialEq, Eq)]
pub enum Action {
    /// Initialise the window system library.
    Init,
    /// Look up the primary monitor.
    FindMonitor,
    /// Set every window hint back to its default.
    ResetHints,
    /// Set one window hint.
    SetHint(WindowHint),
    /// Create the window.
    CreateWindow(WindowRequest),
    /// Read the current video mode of the primary monitor.
    ReadVideoMode,
    /// Move the window and the cursor.
    Place(Placement),
    /// Have the window report events of every category.
    EnablePolling,
    /// Make the window's context current on the calling thread.
    MakeCurrent,
    /// Resolve the graphics API's functions for the current context.
    LoadGl,
    /// Set the swap interval, the viewport and multisampling.
    ConfigureContext(ContextConfig),
    /// End the process with the error's diagnostic.
    Abort(StartupError),
    /// Swap the front and back buffers.
    SwapBuffers,
    /// Clear the colour buffer.
    ClearColor,
}

/// The stage that follows `stage` once `report` has come in.
pub open spec fn next_stage(stage: Stage, report: Report) -> Stage {
    match stage {
        Stage::Created => Stage::Initializing,
        Stage::Initializing => if report is Failed {
            Stage::Failed(StartupError::Init)
        } else {
            Stage::FindingMonitor
        },
        Stage::FindingMonitor => if report is Failed {
            Stage::Failed(StartupError::NoPrimaryMonitor)
        } else {
            Stage::CreatingWindow
        },
        Stage::CreatingWindow => if report is Failed {
            Stage::Failed(StartupError::NoWindow)
        } else {
            Stage::ReadingVideoMode
        },
        Stage::ReadingVideoMode => if report is VideoMode {
            Stage::Open
        } else {
            Stage::Failed(StartupError::NoVideoMode)
        },
        Stage::Open => Stage::Open,
        Stage::Failed(error) => Stage::Failed(error),
    }
}

/// The requests that set up and create the window: the hints are reset, the
/// hints of the options are set in their order, and the window is asked for.
pub open spec fn creation_actions(options: Options, debug: bool) -> Seq<Action> {
    seq![Action::ResetHints] + options.hints(debug).map_values(|hint: WindowHint| Action::SetHint(hint))
        + seq![Action::CreateWindow(options.window_request())]
}

/// The requests that finish a created window on a monitor in video mode
/// `mode`.
pub open spec fn finishing_actions(options: Options, mode: VideoMode) -> Seq<Action> {
    seq![
        Action::Place(options.placement(mode)),
        Action::EnablePolling,
        Action::MakeCurrent,
        Action::LoadGl,
        Action::ConfigureContext(options.context_config()),
    ]
}

/// The requests that a display in `stage` makes once `report` has come in.
pub open spec fn next_actions(stage: Stage, options: Options, debug: bool, report: Report) -> Seq<
    Action,
> {
    match next_stage(stage, report) {
        Stage::Created => Seq::empty(),
        Stage::Initializing => seq![Action::Init],
        Stage::FindingMonitor => seq![Action::FindMonitor],
        Stage::CreatingWindow => creation_actions(options, debug),
        Stage::ReadingVideoMode => seq![Action::ReadVideoMode],
        Stage::Open => match (stage, report) {
            (Stage::ReadingVideoMode, Report::VideoMode(mode)) => finishing_actions(options, mode),
            _ => Seq::empty(),
        },
        Stage::Failed(error) => if stage is Failed {
            Seq::empty()
        } else {
            seq![Action::Abort(error)]
        },
    }
}

/// A single display: its configuration, how far its start-up has come, the
/// events that wait to be handled, oldest first, and their handler.
pub struct Display<E, H: EventHandler<E>> {
    options: Options,
    debug: bool,
    stage: Stage,
    queue: VecDeque<E>,
    handler: H,
}

impl<E, H: EventHandler<E>> Display<E, H> {
    /// The options that the display was made with.
    pub closed spec fn options(&self) -> Options {
        self.options
    }

    /// Whether the display asks for a debug context.
    pub closed spec fn debug(&self) -> bool {
        self.debug
    }

    /// The stage that the display is in.
    pub closed spec fn spec_stage(&self) -> Stage {
        self.stage
    }

    /// Returns the stage that the display is in.
    #[verifier::when_used_as_spec(spec_stage)]
    pub fn stage(&self) -> (stage: Stage)
        ensures
            stage == self.spec_stage(),
    {
        self.stage
    }

    /// Whether the display is open.
    pub open spec fn spec_is_open(&self) -> bool {
        self.stage() is Open
    }

    /// Tells whether the window is up and its context is set up.
    #[verifier::when_used_as_spec(spec_is_open)]
    pub fn is_open(&self) -> (open: bool)
        ensures
            open == self.spec_is_open(),
    {
        match self.stage {
            Stage::Open => true,
            _ => false,
        }
    }

    /// The events that wait to be handled, oldest first.
    pub closed spec fn queue(&self) -> Seq<E> {
        self.queue@
    }

    /// The handler as it is now.
    pub closed spec fn spec_handler(&self) -> &H {
        &self.handler
    }

    /// Returns the handler as it is now.
    #[verifier::when_used_as_spec(spec_handler)]
    pub fn handler(&self) -> (handler: &H)
        ensures
            handler == self.spec_handler(),
    {
        &self.handler
    }

    /// Returns the number of events that wait to be handled.
    pub fn pending(&self) -> (count: usize)
        ensures
            count == self.queue().len(),
    {
        self.queue.len()
    }

    /// Whether the display differs from `before` in nothing but its stage.
    pub open spec fn same_but_stage(&self, before: &Self) -> bool {
        &&& self.options() == before.options()
        &&& self.debug() == before.debug()
        &&& self.queue() == before.queue()
        &&& self.handler() == before.handler()
    }

    /// Whether one round of event handling may take the display from `self`
    /// to `next`: every queued event has gone to the handler, each exactly
    /// once and oldest first, none is left, and nothing else has changed.
    pub open spec fn updates_to(&self, next: &Self) -> bool {
        &&& delivers(*self.handler(), self.queue(), *next.handler())
        &&& next.queue() == Seq::<E>::empty()
        &&& next.options() == self.options()
        &&& next.debug() == self.debug()
        &&& next.stage() == self.stage()
    }

    /// The requests that present a frame: none unless the display is open.
    pub open spec fn frame_actions(&self) -> Seq<Action> {
        if self.is_open() {
            seq![Action::SwapBuffers, Action::ClearColor]
        } else {
            Seq::empty()
        }
    }

    /// Makes a display that hands its events to `handler`. It has asked for
    /// nothing yet and no event waits in it.
    pub fn new(options: Options, handler: H, debug: bool) -> (display: Self)
        ensures
            display.options() == options,
            display.debug() == debug,
            *display.handler() == handler,
            display.stage() == Stage::Created,
            display.queue() == Seq::<E>::empty(),
    {
        Display { options, debug, stage: Stage::Created, queue: VecDeque::new(), handler }
    }

    /// Takes the report on the requests made last and returns the requests
    /// to make next, in order.
    ///
    /// A fresh display asks for the library to be initialised, whatever the
    /// report. From then on each success leads to the next request: the
    /// primary monitor, the hints and the window, the monitor's video mode,
    /// and at last the placement of the window and the set-up of its context,
    /// with which the display is open. Any failure, or a missing video mode,
    /// ends start-up with the request to abort. An open or failed display
    /// asks for nothing more.
    pub fn step(&mut self, report: Report) -> (actions: Vec<Action>)
        ensures
            final(self).stage() == next_stage(old(self).stage(), report),
            actions@ == next_actions(
                old(self).stage(),
                old(self).options(),
                old(self).debug(),
                report,
            ),
            final(self).same_but_stage(old(self)),
    {
        let mut actions: Vec<Action> = Vec::new();
        let failed = match report {
            Report::Failed => true,
            _ => false,
        };
        match self.stage {
            Stage::Created => {
                self.stage = Stage::Initializing;
                actions.push(Action::Init);
            },
            Stage::Initializing => {
                if failed {
                    self.fail(StartupError::Init, &mut actions);
                } else {
                    self.stage = Stage::FindingMonitor;
                    actions.push(Action::FindMonitor);
                }
            },
            Stage::FindingMonitor => {
                if failed {
                    self.fail(StartupError::NoPrimaryMonitor, &mut actions);
                } else {
                    self.stage = Stage::CreatingWindow;
                    actions = self.creation();
                }
            },
            Stage::CreatingWindow => {
                if failed {
                    self.fail(StartupError::NoWindow, &mut actions);
                } else {
                    self.stage = Stage::ReadingVideoMode;
                    actions.push(Action::ReadVideoMode);
                }
            },
            Stage::ReadingVideoMode => {
                match report {
                    Report::VideoMode(mode) => {
                        self.stage = Stage::Open;
                        actions.push(Action::Place(self.options.place(mode)));
                        actions.push(Action::EnablePolling);
                        actions.push(Action::MakeCurrent);
                        actions.push(Action::LoadGl);
                        actions.push(Action::ConfigureContext(self.options.config_context()));
                    },
                    _ => {
                        self.fail(StartupError::NoVideoMode, &mut actions);
                    },
                }
            },
            Stage::Open => {},
            Stage::Failed(_) => {},
        }
        assert(actions@ =~= next_actions(
            old(self).stage(),
            old(self).options(),
            old(self).debug(),
            report,
        ));
        actions
    }

    /// Gives start-up up over `error`.
    fn fail(&mut self, error: StartupError, actions: &mut Vec<Action>)
        requires
            old(actions)@ == Seq::<Action>::empty(),
        ensures
            final(self).stage() == Stage::Failed(error),
            final(self).same_but_stage(old(self)),
            final(actions)@ == seq![Action::Abort(error)],
    {
        self.stage = Stage::Failed(error);
        actions.push(Action::Abort(error));
        assert(actions@ =~= seq![Action::Abort(error)]);
    }

    /// Lists the requests that set up and create the window.
    fn creation(&self) -> (actions: Vec<Action>)
        ensures
            actions@ == creation_actions(self.options(), self.debug()),
    {
        let hints = self.options.config(self.debug);
        let mut actions: Vec<Action> = Vec::new();
        actions.push(Action::ResetHints);
        let mut i: usize = 0;
        while i < hints.len()
            invariant
                i <= hints.len(),
                actions@ == seq![Action::ResetHints] + hints@.take(i as int).map_values(
                    |hint: WindowHint| Action::SetHint(hint),
                ),
            decreases hints.len() - i,
        {
            actions.push(Action::SetHint(hints[i]));
            assert(actions@ =~= seq![Action::ResetHints] + hints@.take(i + 1).map_values(
                |hint: WindowHint| Action::SetHint(hint),
            ));
            i += 1;
        }
        assert(hints@.take(i as int) =~= hints@);
        actions.push(Action::CreateWindow(self.options.create()));
        assert(actions@ =~= creation_actions(self.options(), self.debug()));
        actions
    }

    /// Puts an event that the window system reported behind those that wait.
    pub fn enqueue(&mut self, event: E)
        ensures
            final(self).queue() == old(self).queue().push(event),
            final(self).stage() == old(self).stage(),
            final(self).options() == old(self).options(),
            final(self).debug() == old(self).debug(),
            final(self).handler() == old(self).handler(),
    {
        self.queue.push_back(event);
    }

    /// Hands every queued event to the handler, oldest first, and leaves
    /// the queue empty.
    pub fn update(&mut self)
        ensures
            old(self).updates_to(final(self)),
    {
        let ghost events = self.queue@;
        let ghost mut done: int = 0;
        loop
            invariant
                0 <= done <= events.len(),
                self.queue@ == events.skip(done),
                delivers(old(self).handler, events.take(done), self.handler),
                self.options == old(self).options,
                self.debug == old(self).debug,
                self.stage == old(self).stage,
                events == old(self).queue@,
            ensures
                done == events.len(),
            decreases events.len() - done,
        {
            let ghost before = self.handler;
            match self.queue.pop_front() {
                Some(event) => {
                    self.handler.handle(event);
                    proof {
                        assert(events.take(done + 1).drop_last() =~= events.take(done));
                        assert(before.handles(events.take(done + 1).last(), &self.handler));
                        assert(self.queue@ =~= events.skip(done + 1));
                        done = done + 1;
                    }
                },
                None => {
                    break ;
                },
            }
        }
        assert(events.take(done) =~= events);
        assert(self.queue@ =~= Seq::<E>::empty());
    }

    /// Returns the requests that present the drawn frame and prepare the
    /// next one: the buffers are swapped, then the colour buffer is cleared.
    /// A display that is not open has nothing to present.
    pub fn render(&mut self) -> (actions: Vec<Action>)
        ensures
            actions@ == old(self).frame_actions(),
            *final(self) == *old(self),
    {
        let mut actions: Vec<Action> = Vec::new();
        match self.stage {
            Stage::Open => {
                actions.push(Action::SwapBuffers);
                actions.push(Action::ClearColor);
            },
            _ => {},
        }
        assert(actions@ =~= self.frame_actions());
        actions
    }
}

/// Start-up succeeds when nothing fails: whatever the first report, three
/// reports that are no failure and then a video mode open the display.
pub proof fn lemma_startup_opens(
    first: Report,
    library: Report,
    monitor: Report,
    window: Report,
    mode: VideoMode,
)
    requires
        !(library is Failed),
        !(monitor is Failed),
        !(window is Failed),
    ensures
        next_stage(
            next_stage(
                next_stage(next_stage(next_stage(Stage::Created, first), library), monitor),
                window,
            ),
            Report::VideoMode(mode),
        ) == Stage::Open,
{
}

/// A failure during start-up ends it: the display fails and asks for
/// nothing but to abort with the error of its new stage.
pub proof fn lemma_failure_aborts(stage: Stage, options: Options, debug: bool)
    requires
        !(stage is Created),
        !(stage is Open),
        !(stage is Failed),
    ensures
        next_stage(stage, Report::Failed) is Failed,
        next_actions(stage, options, debug, Report::Failed) == seq![
            Action::Abort(next_stage(stage, Report::Failed)->Failed_0),
        ],
{
}

/// An open display stays open and a failed one stays failed, whatever is
/// reported, and neither asks for anything more.
pub proof fn lemma_settled_stays(stage: Stage, options: Options, debug: bool, report: Report)
    requires
        stage is Open || stage is Failed,
    ensures
        next_stage(stage, report) == stage,
        next_actions(stage, options, debug, report) == Seq::<Action>::empty(),
{
}

/// Rendering and then updating leaves no event behind: whatever waited
/// before the frame was presented, and whatever arrived between the two
/// calls, has reached the handler in the order of arrival, and the queue is
/// empty.
pub proof fn lemma_render_then_update_drains<E, H: EventHandler<E>>(
    start: Display<E, H>,
    rendered: Display<E, H>,
    arrived: Seq<E>,
    polled: Display<E, H>,
    updated: Display<E, H>,
)
    requires
        rendered == start,
        polled.queue() == rendered.queue() + arrived,
        polled.handler() == rendered.handler(),
        polled.updates_to(&updated),
    ensures
        updated.queue() == Seq::<E>::empty(),
        delivers(*start.handler(), start.queue() + arrived, *updated.handler()),
{
}

/// Two rounds of event handling, with events arriving in between, hand over
/// what one round over all of the events would: no event is handled twice
/// and the order of arrival is kept across rounds.
pub proof fn lemma_updates_compose<E, H: EventHandler<E>>(
    start: Display<E, H>,
    once: Display<E, H>,
    arrived: Seq<E>,
    polled: Display<E, H>,
    twice: Display<E, H>,
)
    requires
        start.updates_to(&once),
        polled.queue() == once.queue() + arrived,
        polled.handler() == once.handler(),
        polled.updates_to(&twice),
    ensures
        twice.queue() == Seq::<E>::empty(),
        delivers(*start.handler(), start.queue() + arrived, *twice.handler()),
{
    assert(once.queue() + arrived =~= arrived);
    lemma_delivers_chain(
        *start.handler(),
        start.queue(),
        *once.handler(),
        arrived,
        *twice.handler(),
    );
}

} // verus!
