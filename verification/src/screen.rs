//! Pieces of the full-screen terminal interface that screens share.
use vstd::prelude::*;
use vstd::string::*;

verus! {

/// Whether a screen keeps running after an event, or closes with an outcome.
pub enum ScreenControl<T> {
    Continue,
    Exit(T),
}

/// What a screen may use while it handles an event: the means to ask for a redraw.
pub struct ScreenContext<F> {
    frame_requester: F,
}

impl<F> ScreenContext<F> {
    pub fn new(frame_requester: F) -> (r: Self)
        ensures
            r.requester() == frame_requester,
    {
        ScreenContext { frame_requester }
    }

    pub closed spec fn requester(&self) -> F {
        self.frame_requester
    }

    pub fn frame_requester(&self) -> (r: &F)
        ensures
            *r == self.requester(),
    {
        &self.frame_requester
    }
}

/// The terminal window's title: `Char`, and ` | ` with the subtitle when there is one.
pub fn terminal_title(subtitle: Option<&str>) -> (r: String)
    ensures
        r@ == match subtitle {
            Some(s) => "Char | "@ + s@,
            None => "Char"@,
        },
{
    match subtitle {
        Some(s) => {
            let mut t = String::from_str("Char | ");
            t.append(s);
            t
        },
        None => String::from_str("Char"),
    }
}


/// Which of the loop's two event sources are still open: the terminal's events, and
/// the screen's own external channel.
#[derive(Clone, Copy, Debug, PartialEq, Eq, Structural)]
pub struct EventSources {
    pub events_open: bool,
    pub external_open: bool,
}

impl EventSources {
    /// The terminal's events are open from the start; the external channel is open
    /// when the screen was given one.
    pub fn new(has_external: bool) -> (r: Self)
        ensures
            r.events_open,
            r.external_open == has_external,
    {
        EventSources { events_open: true, external_open: has_external }
    }

    /// Before each wait: the loop fails with "screen event loop closed" once both
    /// sources are closed, and waits otherwise.
    pub fn check_open(&self) -> (r: Result<(), String>)
        ensures
            r is Ok <==> (self.events_open || self.external_open),
            r matches Err(e) ==> e@ == "screen event loop closed"@,
    {
        if self.events_open || self.external_open {
            Ok(())
        } else {
            Err(String::from_str("screen event loop closed"))
        }
    }
}

/// What the loop received: a terminal resize or redraw request, a terminal event or an
/// external event together with what the screen answered to it, or the end of a source.
pub enum LoopEvent<O> {
    Resize,
    Draw,
    TuiHandled(ScreenControl<O>),
    TuiClosed,
    ExternalHandled(ScreenControl<O>),
    ExternalClosed,
}

/// What the loop does next: redraw the screen (after telling it of a resize, and
/// setting the window title when asked to) and schedule the next frame after the
/// screen's idle delay; schedule a frame at once; end with the screen's output; or
/// nothing.
pub enum LoopAction<O> {
    Redraw { resize: bool, set_title: bool },
    ScheduleFrame,
    Finish(O),
    Idle,
}

pub open spec fn loop_step_spec<O>(sources: EventSources, set_title: bool, event: LoopEvent<O>) -> (EventSources, LoopAction<O>) {
    match event {
        LoopEvent::Resize => (sources, LoopAction::Redraw { resize: true, set_title }),
        LoopEvent::Draw => (sources, LoopAction::Redraw { resize: false, set_title }),
        LoopEvent::TuiHandled(ScreenControl::Continue) => (sources, LoopAction::ScheduleFrame),
        LoopEvent::TuiHandled(ScreenControl::Exit(o)) => (sources, LoopAction::Finish(o)),
        LoopEvent::TuiClosed => (EventSources { events_open: false, ..sources }, LoopAction::Idle),
        LoopEvent::ExternalHandled(ScreenControl::Continue) => (sources, LoopAction::ScheduleFrame),
        LoopEvent::ExternalHandled(ScreenControl::Exit(o)) => (sources, LoopAction::Finish(o)),
        LoopEvent::ExternalClosed => (EventSources { external_open: false, ..sources }, LoopAction::Idle),
    }
}

/// One turn of a screen's event loop: what the loop does with an event from a source
/// that is open, and which sources stay open. The first `Exit` a screen answers ends
/// the loop with its output.
pub fn screen_loop_step<O>(sources: &mut EventSources, set_title: bool, event: LoopEvent<O>) -> (r: LoopAction<O>)
    requires
        (event is Resize || event is Draw || event is TuiHandled || event is TuiClosed) ==> old(sources).events_open,
        (event is ExternalHandled || event is ExternalClosed) ==> old(sources).external_open,
    ensures
        (*final(sources), r) == loop_step_spec(*old(sources), set_title, event),
{
    match event {
        LoopEvent::Resize => LoopAction::Redraw { resize: true, set_title },
        LoopEvent::Draw => LoopAction::Redraw { resize: false, set_title },
        LoopEvent::TuiHandled(ScreenControl::Continue) => LoopAction::ScheduleFrame,
        LoopEvent::TuiHandled(ScreenControl::Exit(o)) => LoopAction::Finish(o),
        LoopEvent::TuiClosed => {
            sources.events_open = false;
            LoopAction::Idle
        },
        LoopEvent::ExternalHandled(ScreenControl::Continue) => LoopAction::ScheduleFrame,
        LoopEvent::ExternalHandled(ScreenControl::Exit(o)) => LoopAction::Finish(o),
        LoopEvent::ExternalClosed => {
            sources.external_open = false;
            LoopAction::Idle
        },
    }
}


/// An event of the terminal interface, `K` being a key press.
pub enum TuiEvent<K> {
    Key(K),
    Paste(String),
    Draw,
    Resize,
}

/// What the terminal's event reader received: from the terminal, a key (pressed, or
/// released or repeated), a paste, a resize, anything else, or a read error or the end
/// of the terminal's stream; from the redraw channel, a request, a lag, or its closing.
pub enum TerminalInput<K> {
    KeyPress(K),
    KeyOther,
    Paste(String),
    Resize,
    Other,
    StreamFailed,
    DrawRequested,
    DrawLagged,
    DrawClosed,
}

/// What the event reader does with what it received: hand an event on, pass over it,
/// open the terminal's stream anew, or stop.
pub enum InputDecision<K> {
    Send(TuiEvent<K>),
    Skip,
    RestartStream,
    Stop,
}

pub open spec fn input_decision_spec<K>(input: TerminalInput<K>) -> InputDecision<K> {
    match input {
        TerminalInput::KeyPress(k) => InputDecision::Send(TuiEvent::Key(k)),
        TerminalInput::Paste(p) => InputDecision::Send(TuiEvent::Paste(p)),
        TerminalInput::Resize => InputDecision::Send(TuiEvent::Resize),
        TerminalInput::KeyOther | TerminalInput::Other => InputDecision::Skip,
        TerminalInput::StreamFailed => InputDecision::RestartStream,
        TerminalInput::DrawRequested | TerminalInput::DrawLagged => InputDecision::Send(TuiEvent::Draw),
        TerminalInput::DrawClosed => InputDecision::Stop,
    }
}

/// The event reader's decision: key presses, pastes and resizes are handed on, other
/// terminal events are passed over, a failed or ended stream is opened anew; a redraw
/// request (or a lagging redraw channel) becomes a draw, and a closed redraw channel
/// stops the reader.
pub fn input_decision<K>(input: TerminalInput<K>) -> (r: InputDecision<K>)
    ensures
        r == input_decision_spec(input),
{
    match input {
        TerminalInput::KeyPress(k) => InputDecision::Send(TuiEvent::Key(k)),
        TerminalInput::Paste(p) => InputDecision::Send(TuiEvent::Paste(p)),
        TerminalInput::Resize => InputDecision::Send(TuiEvent::Resize),
        TerminalInput::KeyOther | TerminalInput::Other => InputDecision::Skip,
        TerminalInput::StreamFailed => InputDecision::RestartStream,
        TerminalInput::DrawRequested | TerminalInput::DrawLagged => InputDecision::Send(TuiEvent::Draw),
        TerminalInput::DrawClosed => InputDecision::Stop,
    }
}

/// What the event reader does with the terminal's stream before it waits: a paused
/// reader lets it go, a running reader without one opens it, otherwise it is kept.
#[derive(Clone, Copy, Debug, PartialEq, Eq, Structural)]
pub enum StreamAction {
    Drop,
    Open,
    Keep,
}

/// The stream action for a reader that is `paused` or not, holding a stream or not.
pub fn stream_action(paused: bool, has_stream: bool) -> (r: StreamAction)
    ensures
        paused ==> r == StreamAction::Drop,
        !paused && !has_stream ==> r == StreamAction::Open,
        !paused && has_stream ==> r == StreamAction::Keep,
{
    if paused {
        StreamAction::Drop
    } else if !has_stream {
        StreamAction::Open
    } else {
        StreamAction::Keep
    }
}

} // verus!
