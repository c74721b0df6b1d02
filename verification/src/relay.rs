//! The relay of the path given at launch to the display surface.
//!
//! The relay decides; its caller acts. [`Relay::launch`] takes the outcome of
//! argument parsing and the working directory, and [`Relay::step`] takes what
//! happened since. Each returns the next state and the one action that the
//! caller is to perform. Over a whole run at most one notification is sent:
//! for a textual argument, with the resolved path as its payload, and only
//! once the surface has been found and the ready signal has fired after that.
//! A display surface that does not exist is reported like any other reason
//! for which no path is relayed: nothing is sent and startup goes on.

use vstd::prelude::*;
use crate::path::{resolve, resolved};

verus! {

/// How long the caller waits, once it holds the display surface, before it
/// signals readiness.
pub const READY_DELAY_MILLIS: u64 = 500;

/// The name of the launch argument that holds the path.
pub const FILE_ARGUMENT: &'static str = "file";

/// The label of the display surface that is notified.
pub const SURFACE_LABEL: &'static str = "main";

/// The name of the notification that carries the path.
pub const OPEN_FILE_EVENT: &'static str = "cli-open-file";

/// What argument parsing produced for the path argument.
#[derive(Clone, Debug, PartialEq, Eq)]
pub enum LaunchArgument {
    /// The command line could not be parsed.
    Unparsed,
    /// No path was given.
    Absent,
    /// A value was given that is not plain text.
    NotText,
    /// The path as it was given.
    Text(String),
}

/// The mathematical value of a [`LaunchArgument`].
pub enum LaunchArgumentView {
    Unparsed,
    Absent,
    NotText,
    Text(Seq<char>),
}

impl View for LaunchArgument {
    type V = LaunchArgumentView;

    open spec fn view(&self) -> LaunchArgumentView {
        match self {
            LaunchArgument::Unparsed => LaunchArgumentView::Unparsed,
            LaunchArgument::Absent => LaunchArgumentView::Absent,
            LaunchArgument::NotText => LaunchArgumentView::NotText,
            LaunchArgument::Text(path) => LaunchArgumentView::Text(path@),
        }
    }
}

/// Why no path is relayed.
#[derive(Clone, Copy, Debug, PartialEq, Eq)]
pub enum Diagnostic {
    /// The command line could not be parsed.
    Unparsed,
    /// No path was given.
    NoArgument,
    /// The value given is not plain text.
    NotText,
    /// There is no display surface to notify.
    SurfaceMissing,
}

/// What happened outside since the last action.
#[derive(Clone, Copy, Debug, PartialEq, Eq)]
pub enum Event {
    /// The display surface was looked up and exists.
    SurfaceFound,
    /// The display surface was looked up and does not exist.
    SurfaceMissing,
    /// The ready signal fired.
    Ready,
}

/// What the caller is to do next.
#[derive(Clone, Debug, PartialEq, Eq)]
pub enum Action {
    /// Nothing.
    Nothing,
    /// Print a diagnostic and go on.
    Report(Diagnostic),
    /// Look up the display surface and answer with
    /// [`Event::SurfaceFound`] or [`Event::SurfaceMissing`].
    FindSurface,
    /// Wait for so many milliseconds without blocking startup, then answer
    /// with [`Event::Ready`].
    Wait { millis: u64 },
    /// Send the notification, with this payload, to the display surface.
    Notify { payload: String },
}

/// The mathematical value of an [`Action`].
pub enum ActionView {
    Nothing,
    Report(Diagnostic),
    FindSurface,
    Wait { millis: u64 },
    Notify { payload: Seq<char> },
}

impl View for Action {
    type V = ActionView;

    open spec fn view(&self) -> ActionView {
        match self {
            Action::Nothing => ActionView::Nothing,
            Action::Report(diagnostic) => ActionView::Report(*diagnostic),
            Action::FindSurface => ActionView::FindSurface,
            Action::Wait { millis } => ActionView::Wait { millis: *millis },
            Action::Notify { payload } => ActionView::Notify { payload: payload@ },
        }
    }
}

/// Where the relay stands.
#[derive(Clone, Debug, PartialEq, Eq)]
pub enum Relay {
    /// The path is resolved; the display surface is not yet known.
    Resolved { path: String },
    /// The display surface is known; the ready signal has not fired since.
    Waiting { path: String },
    /// Nothing is left to do.
    Finished,
}

/// The mathematical value of a [`Relay`].
pub enum RelayView {
    Resolved { path: Seq<char> },
    Waiting { path: Seq<char> },
    Finished,
}

impl View for Relay {
    type V = RelayView;

    open spec fn view(&self) -> RelayView {
        match self {
            Relay::Resolved { path } => RelayView::Resolved { path: path@ },
            Relay::Waiting { path } => RelayView::Waiting { path: path@ },
            Relay::Finished => RelayView::Finished,
        }
    }
}

/// The state and the action that a launch with `argument` begins with.
pub open spec fn launched(argument: LaunchArgumentView, working_dir: Option<Seq<char>>) -> (
    RelayView,
    ActionView,
) {
    match argument {
        LaunchArgumentView::Unparsed => (
            RelayView::Finished,
            ActionView::Report(Diagnostic::Unparsed),
        ),
        LaunchArgumentView::Absent => (
            RelayView::Finished,
            ActionView::Report(Diagnostic::NoArgument),
        ),
        LaunchArgumentView::NotText => (
            RelayView::Finished,
            ActionView::Report(Diagnostic::NotText),
        ),
        LaunchArgumentView::Text(path) => (
            RelayView::Resolved { path: resolved(path, working_dir) },
            ActionView::FindSurface,
        ),
    }
}

/// The state and the action that follow `event` in `state`.
pub open spec fn next(state: RelayView, event: Event) -> (RelayView, ActionView) {
    match (state, event) {
        (RelayView::Resolved { path }, Event::SurfaceFound) => (
            RelayView::Waiting { path },
            ActionView::Wait { millis: READY_DELAY_MILLIS },
        ),
        (RelayView::Resolved { path }, Event::SurfaceMissing) => (
            RelayView::Finished,
            ActionView::Report(Diagnostic::SurfaceMissing),
        ),
        (RelayView::Waiting { path }, Event::Ready) => (
            RelayView::Finished,
            ActionView::Notify { payload: path },
        ),
        _ => (state, ActionView::Nothing),
    }
}

impl Relay {
    /// Begins the relay with what argument parsing produced.
    ///
    /// A path that was given as text is resolved against `working_dir` and
    /// kept; the caller is asked for the display surface. In every other
    /// case the relay is finished at once, with a diagnostic to report.
    pub fn launch(argument: LaunchArgument, working_dir: Option<&str>) -> (out: (Relay, Action))
        ensures
            (out.0@, out.1@) == launched(
                argument@,
                match working_dir {
                    Some(dir) => Some(dir@),
                    None => None,
                },
            ),
    {
        match argument {
            LaunchArgument::Unparsed => (Relay::Finished, Action::Report(Diagnostic::Unparsed)),
            LaunchArgument::Absent => (Relay::Finished, Action::Report(Diagnostic::NoArgument)),
            LaunchArgument::NotText => (Relay::Finished, Action::Report(Diagnostic::NotText)),
            LaunchArgument::Text(path) => {
                let path = resolve(path.as_str(), working_dir);
                (Relay::Resolved { path }, Action::FindSurface)
            },
        }
    }

    /// Takes one event and says what to do next.
    ///
    /// A surface that was found starts the wait; one that is missing ends
    /// the relay with a diagnostic to report. The ready signal that follows
    /// a found surface asks for the notification. An event that the state
    /// does not wait for changes nothing and asks for nothing.
    pub fn step(self, event: Event) -> (out: (Relay, Action))
        ensures
            (out.0@, out.1@) == next(self@, event),
    {
        match self {
            Relay::Resolved { path } => match event {
                Event::SurfaceFound => (
                    Relay::Waiting { path },
                    Action::Wait { millis: READY_DELAY_MILLIS },
                ),
                Event::SurfaceMissing => (
                    Relay::Finished,
                    Action::Report(Diagnostic::SurfaceMissing),
                ),
                Event::Ready => (Relay::Resolved { path }, Action::Nothing),
            },
            Relay::Waiting { path } => match event {
                Event::Ready => (Relay::Finished, Action::Notify { payload: path }),
                _ => (Relay::Waiting { path }, Action::Nothing),
            },
            Relay::Finished => (Relay::Finished, Action::Nothing),
        }
    }

    /// Whether nothing is left to do.
    pub fn is_finished(&self) -> (r: bool)
        ensures
            r == (self@ == RelayView::Finished),
    {
        match self {
            Relay::Finished => true,
            _ => false,
        }
    }
}

/// The payloads of the notifications that the caller is asked to send while
/// `events` arrive, one after the other, in `state`.
pub open spec fn notifications(state: RelayView, events: Seq<Event>) -> Seq<Seq<char>>
    decreases events.len(),
{
    if events.len() == 0 {
        Seq::empty()
    } else {
        let rest = notifications(next(state, events[0]).0, events.drop_first());
        match next(state, events[0]).1 {
            ActionView::Notify { payload } => seq![payload] + rest,
            _ => rest,
        }
    }
}

/// The path that `state` still holds for delivery, if any.
pub open spec fn pending(state: RelayView) -> Option<Seq<char>> {
    match state {
        RelayView::Resolved { path } => Some(path),
        RelayView::Waiting { path } => Some(path),
        RelayView::Finished => None,
    }
}

/// Whether `event` occurs nowhere in `events`.
pub open spec fn absent(events: Seq<Event>, event: Event) -> bool {
    forall|i: int| 0 <= i < events.len() ==> events[i] != event
}

/// Whether every one of `events` is `event`.
pub open spec fn only(events: Seq<Event>, event: Event) -> bool {
    forall|i: int| 0 <= i < events.len() ==> events[i] == event
}

/// The notifications of a run that begins with `event`.
proof fn notifications_unfold(state: RelayView, event: Event, rest: Seq<Event>)
    ensures
        notifications(state, seq![event] + rest) == match next(state, event).1 {
            ActionView::Notify { payload } => seq![payload] + notifications(
                next(state, event).0,
                rest,
            ),
            _ => notifications(next(state, event).0, rest),
        },
{
    let events = seq![event] + rest;
    assert(events[0] == event);
    assert(events.drop_first() =~= rest);
}

/// Events that the state does not wait for add nothing to a run.
proof fn notifications_skip(state: RelayView, ignored: Seq<Event>, rest: Seq<Event>)
    requires
        forall|i: int|
            0 <= i < ignored.len() ==> #[trigger] next(state, ignored[i]) == (
                state,
                ActionView::Nothing,
            ),
    ensures
        notifications(state, ignored + rest) == notifications(state, rest),
    decreases ignored.len(),
{
    if ignored.len() == 0 {
        assert(ignored + rest =~= rest);
    } else {
        let tail = ignored.drop_first();
        assert(next(state, ignored[0]) == (state, ActionView::Nothing));
        assert(ignored + rest =~= seq![ignored[0]] + (tail + rest));
        notifications_unfold(state, ignored[0], tail + rest);
        assert forall|i: int| 0 <= i < tail.len() implies #[trigger] next(state, tail[i]) == (
            state,
            ActionView::Nothing,
        ) by {
            assert(tail[i] == ignored[i + 1]);
        }
        notifications_skip(state, tail, rest);
    }
}

/// Once the relay is finished, nothing is sent any more.
pub proof fn finished_sends_nothing(events: Seq<Event>)
    ensures
        notifications(RelayView::Finished, events) == Seq::<Seq<char>>::empty(),
    decreases events.len(),
{
    if events.len() > 0 {
        finished_sends_nothing(events.drop_first());
    }
}

/// From any state and on any run of events, at most one notification is
/// sent, and its payload is the path that the state holds.
pub proof fn at_most_one_notification(state: RelayView, events: Seq<Event>)
    ensures
        notifications(state, events).len() <= 1,
        notifications(state, events).len() == 1 ==> pending(state) == Some(
            notifications(state, events)[0],
        ),
    decreases events.len(),
{
    if events.len() > 0 {
        let after = next(state, events[0]).0;
        at_most_one_notification(after, events.drop_first());
        if after == RelayView::Finished {
            finished_sends_nothing(events.drop_first());
        }
    }
}

/// Until the ready signal fires, nothing is sent: a run of events without
/// it asks for no notification, whatever the state.
pub proof fn nothing_sent_before_ready(state: RelayView, events: Seq<Event>)
    requires
        absent(events, Event::Ready),
    ensures
        notifications(state, events) == Seq::<Seq<char>>::empty(),
    decreases events.len(),
{
    if events.len() > 0 {
        assert(events[0] != Event::Ready);
        let tail = events.drop_first();
        assert forall|i: int| 0 <= i < tail.len() implies tail[i] != Event::Ready by {
            assert(tail[i] == events[i + 1]);
        }
        nothing_sent_before_ready(next(state, events[0]).0, tail);
    }
}

/// A launch without a textual path sends no notification, whatever happens
/// afterwards, and asks for none at the start.
pub proof fn no_path_no_notification(
    argument: LaunchArgumentView,
    working_dir: Option<Seq<char>>,
    events: Seq<Event>,
)
    requires
        !(argument is Text),
    ensures
        launched(argument, working_dir).0 == RelayView::Finished,
        launched(argument, working_dir).1 is Report,
        notifications(launched(argument, working_dir).0, events) == Seq::<Seq<char>>::empty(),
{
    finished_sends_nothing(events);
}

/// A launch with a textual path never sends more than one notification, and
/// the one it sends carries the resolved path.
pub proof fn notification_carries_resolved_path(
    path: Seq<char>,
    working_dir: Option<Seq<char>>,
    events: Seq<Event>,
)
    ensures
        !(launched(LaunchArgumentView::Text(path), working_dir).1 is Notify),
        notifications(launched(LaunchArgumentView::Text(path), working_dir).0, events).len() <= 1,
        notifications(launched(LaunchArgumentView::Text(path), working_dir).0, events).len() == 1
            ==> notifications(launched(LaunchArgumentView::Text(path), working_dir).0, events)[0]
            == resolved(path, working_dir),
{
    at_most_one_notification(launched(LaunchArgumentView::Text(path), working_dir).0, events);
}

/// A launch with a textual path sends exactly one notification, with the
/// resolved path, on every run in which the surface is found and the ready
/// signal fires after that. Ready signals that come before the surface is
/// found, and whatever comes after the first ready signal that follows it,
/// change nothing.
pub proof fn one_notification_once_ready(
    path: Seq<char>,
    working_dir: Option<Seq<char>>,
    early: Seq<Event>,
    between: Seq<Event>,
    late: Seq<Event>,
)
    requires
        only(early, Event::Ready),
        absent(between, Event::Ready),
    ensures
        notifications(
            launched(LaunchArgumentView::Text(path), working_dir).0,
            early + seq![Event::SurfaceFound] + between + seq![Event::Ready] + late,
        ) == seq![resolved(path, working_dir)],
{
    let target = resolved(path, working_dir);
    let start = RelayView::Resolved { path: target };
    let waiting = RelayView::Waiting { path: target };
    let tail = seq![Event::Ready] + late;
    let events = early + seq![Event::SurfaceFound] + between + seq![Event::Ready] + late;
    assert(events =~= early + (seq![Event::SurfaceFound] + (between + tail)));
    assert forall|i: int| 0 <= i < early.len() implies #[trigger] next(start, early[i]) == (
        start,
        ActionView::Nothing,
    ) by {
        assert(early[i] == Event::Ready);
    }
    notifications_skip(start, early, seq![Event::SurfaceFound] + (between + tail));
    notifications_unfold(start, Event::SurfaceFound, between + tail);
    assert forall|i: int| 0 <= i < between.len() implies #[trigger] next(waiting, between[i]) == (
        waiting,
        ActionView::Nothing,
    ) by {
        assert(between[i] != Event::Ready);
    }
    notifications_skip(waiting, between, tail);
    notifications_unfold(waiting, Event::Ready, late);
    finished_sends_nothing(late);
    assert(seq![target] + Seq::<Seq<char>>::empty() =~= seq![target]);
}

/// Without a display surface nothing is sent: if the surface is missing
/// when it is first looked up, that is reported, the relay is finished, and
/// whatever happens afterwards asks for no notification.
pub proof fn missing_surface_is_reported(
    path: Seq<char>,
    working_dir: Option<Seq<char>>,
    early: Seq<Event>,
    late: Seq<Event>,
)
    requires
        only(early, Event::Ready),
    ensures
        next(launched(LaunchArgumentView::Text(path), working_dir).0, Event::SurfaceMissing) == (
            RelayView::Finished,
            ActionView::Report(Diagnostic::SurfaceMissing),
        ),
        notifications(
            launched(LaunchArgumentView::Text(path), working_dir).0,
            early + seq![Event::SurfaceMissing] + late,
        ) == Seq::<Seq<char>>::empty(),
{
    let start = launched(LaunchArgumentView::Text(path), working_dir).0;
    let events = early + seq![Event::SurfaceMissing] + late;
    assert(events =~= early + (seq![Event::SurfaceMissing] + late));
    assert forall|i: int| 0 <= i < early.len() implies #[trigger] next(start, early[i]) == (
        start,
        ActionView::Nothing,
    ) by {
        assert(early[i] == Event::Ready);
    }
    notifications_skip(start, early, seq![Event::SurfaceMissing] + late);
    notifications_unfold(start, Event::SurfaceMissing, late);
    finished_sends_nothing(late);
}

} // verus!
