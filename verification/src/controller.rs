//! The controller: one step takes the state and an event of the host to
//! the next state and the requests to send to the host.

use crate::config::{Config, ConfigView};
use crate::focus::{
    copy_text, focused_pane_of, focused_tab_of, get_focused_pane, get_focused_tab,
    pane_focus_candidate, tab_focus_changed, FocusTracker, FocusView, FocusedLocation,
    PaneInfoView, PaneManifest, TabInfo,
};
use crate::mode::{decide, decision, InputMode};
use crate::sampler::{on_result, sample_of, RawResult, RawResultView, SampleOutcome, SampleOutcomeView};
use crate::text::{owned, same_text};
use crate::timer::{fired, scheduled, RetryDebounceTimer};
use vstd::prelude::*;

verus! {

/// Where the controller stands with the host.
#[derive(Clone, Copy, Debug, PartialEq, Eq, Structural)]
pub enum Phase {
    /// Not loaded yet.
    Uninitialized,
    /// Loaded; the host has not granted the permissions, or has denied
    /// them. Events are recorded, nothing is requested.
    PermissionPending,
    /// The host has granted the permissions.
    Active,
}

/// A notification of the host.
#[derive(Clone, Debug, PartialEq, Eq)]
pub enum Event {
    /// The host answered the request for permissions.
    PermissionResult { granted: bool },
    /// The host's input mode is now this one.
    ModeUpdate(InputMode),
    /// The user typed something.
    InputReceived,
    /// The tabs of the host.
    TabUpdate(Vec<TabInfo>),
    /// The panes of the host.
    PaneUpdate(PaneManifest),
    /// The answer to a request of the host, with the tag of that request.
    SampleResult { tag: String, result: RawResult },
    /// The timer fired.
    Timer,
    /// Someone outside asks for a fresh evaluation.
    Poke,
}

/// An [`Event`] as the contracts speak of it.
pub enum EventView {
    PermissionResult { granted: bool },
    ModeUpdate(InputMode),
    InputReceived,
    TabUpdate(Seq<TabInfo>),
    PaneUpdate(Map<usize, Seq<PaneInfoView>>),
    SampleResult { tag: Seq<char>, result: RawResultView },
    Timer,
    Poke,
}

impl View for Event {
    type V = EventView;

    open spec fn view(&self) -> EventView {
        match self {
            Event::PermissionResult { granted } => EventView::PermissionResult {
                granted: *granted,
            },
            Event::ModeUpdate(mode) => EventView::ModeUpdate(*mode),
            Event::InputReceived => EventView::InputReceived,
            Event::TabUpdate(tabs) => EventView::TabUpdate(tabs@),
            Event::PaneUpdate(manifest) => EventView::PaneUpdate(manifest@),
            Event::SampleResult { tag, result } => EventView::SampleResult {
                tag: tag@,
                result: result@,
            },
            Event::Timer => EventView::Timer,
            Event::Poke => EventView::Poke,
        }
    }
}

/// A request to the host.
#[derive(Clone, Debug, PartialEq, Eq)]
pub enum Action {
    /// Ask for the permissions that sampling and mode switching need.
    RequestPermission,
    /// Subscribe to the notifications that the controller handles.
    Subscribe,
    /// Hide the surface of the embedding program: nothing is drawn on it.
    HideSelf,
    /// Ask what runs in the focused pane; the answer is to carry `tag`.
    RequestSample { tag: String },
    /// Switch the input mode.
    SwitchMode(InputMode),
    /// Start the host's timer.
    ArmTimer { millis: u64 },
}

/// An [`Action`] as the contracts speak of it.
pub enum ActionView {
    RequestPermission,
    Subscribe,
    HideSelf,
    RequestSample { tag: Seq<char> },
    SwitchMode(InputMode),
    ArmTimer { millis: u64 },
}

impl DeepView for Action {
    type V = ActionView;

    open spec fn deep_view(&self) -> ActionView {
        match self {
            Action::RequestPermission => ActionView::RequestPermission,
            Action::Subscribe => ActionView::Subscribe,
            Action::HideSelf => ActionView::HideSelf,
            Action::RequestSample { tag } => ActionView::RequestSample { tag: tag@ },
            Action::SwitchMode(mode) => ActionView::SwitchMode(*mode),
            Action::ArmTimer { millis } => ActionView::ArmTimer { millis: *millis },
        }
    }
}

impl View for Action {
    type V = ActionView;

    open spec fn view(&self) -> ActionView {
        self.deep_view()
    }
}

/// The state of the controller.
#[derive(Clone, Debug)]
pub struct Controller {
    pub phase: Phase,
    pub config: Config,
    pub focus: FocusTracker,
    /// The input mode that the host last reported.
    pub mode: InputMode,
    pub timer: RetryDebounceTimer,
}

/// A [`Controller`] as the contracts speak of it.
pub struct ControllerView {
    pub phase: Phase,
    pub config: ConfigView,
    pub focus: FocusView,
    pub mode: InputMode,
    pub timer: RetryDebounceTimer,
}

impl View for Controller {
    type V = ControllerView;

    open spec fn view(&self) -> ControllerView {
        ControllerView {
            phase: self.phase,
            config: self.config@,
            focus: self.focus@,
            mode: self.mode,
            timer: self.timer,
        }
    }
}

/// The tag that marks a request as a sampling request.
pub open spec fn sample_tag() -> Seq<char> {
    "autolock"@
}

/// The request for a sample.
pub open spec fn sample_request() -> ActionView {
    ActionView::RequestSample { tag: sample_tag() }
}

impl ControllerView {
    /// Whether requests may go to the host.
    pub open spec fn granted(self) -> bool {
        self.phase == Phase::Active
    }

    /// The state before the controller is loaded.
    pub open spec fn initial(config: ConfigView) -> ControllerView {
        ControllerView {
            phase: Phase::Uninitialized,
            config,
            focus: FocusView {
                location: FocusedLocation { tab_position: None, pane_id: None },
                command: None,
            },
            mode: InputMode::Normal,
            timer: RetryDebounceTimer { pending: false, interval_millis: 0 },
        }
    }

    /// Arms the timer for `millis` unless one is pending.
    pub open spec fn arm(self, millis: u64) -> (ControllerView, Seq<ActionView>) {
        let (timer, armed) = scheduled(self.timer, millis);
        (
            ControllerView { timer, ..self },
            if armed {
                seq![ActionView::ArmTimer { millis }]
            } else {
                seq![]
            },
        )
    }

    /// Answers a signal that is gathered with others: the timer is armed
    /// for the reaction interval, if requests may go to the host.
    pub open spec fn debounce(self) -> (ControllerView, Seq<ActionView>) {
        if self.granted() {
            self.arm(self.config.reaction_millis)
        } else {
            (self, seq![])
        }
    }

    /// Answers a notification about the focus: where the focus changed a
    /// sample is requested, at once or through the timer.
    pub open spec fn refocus(self, changed: bool) -> (ControllerView, Seq<ActionView>) {
        if changed && self.granted() {
            if self.config.debounce_focus {
                self.debounce()
            } else {
                (self, seq![sample_request()])
            }
        } else {
            (self, seq![])
        }
    }

    /// Answers a sample: the policy decides, the switch is requested
    /// where it applies, and a watched command keeps the timer going. A
    /// sample that holds nothing usable decides nothing and is retried.
    pub open spec fn sampled(self, outcome: SampleOutcomeView) -> (
        ControllerView,
        Seq<ActionView>,
    ) {
        match outcome {
            SampleOutcomeView::Indeterminate => self.arm(self.config.reaction_millis),
            SampleOutcomeView::Resolved(sample) => {
                let d = decision(
                    sample,
                    self.config.triggers,
                    self.config.watch_triggers,
                    self.mode,
                );
                let switch = if d.apply {
                    seq![ActionView::SwitchMode(d.target)]
                } else {
                    seq![]
                };
                if d.keep_watching {
                    let (next, arms) = self.arm(self.config.watch_millis);
                    (next, switch + arms)
                } else {
                    (self, switch)
                }
            },
        }
    }

    /// The state after the host loaded the controller, and the requests
    /// that go out: for the permissions, for the events, and to hide the
    /// surface if the permissions are granted already.
    pub open spec fn load(self) -> (ControllerView, Seq<ActionView>) {
        let phase = if self.phase == Phase::Uninitialized {
            Phase::PermissionPending
        } else {
            self.phase
        };
        let ask = seq![ActionView::RequestPermission, ActionView::Subscribe];
        (
            ControllerView { phase, ..self },
            if self.granted() {
                ask.push(ActionView::HideSelf)
            } else {
                ask
            },
        )
    }

    /// The state after `event`, and the requests that go out.
    pub open spec fn step(self, event: EventView) -> (ControllerView, Seq<ActionView>) {
        match event {
            EventView::PermissionResult { granted } => {
                if granted {
                    (ControllerView { phase: Phase::Active, ..self }, seq![ActionView::HideSelf])
                } else if self.phase == Phase::Active {
                    (ControllerView { phase: Phase::PermissionPending, ..self }, seq![])
                } else {
                    (self, seq![])
                }
            },
            EventView::ModeUpdate(mode) => (ControllerView { mode, ..self }).debounce(),
            EventView::InputReceived => self.debounce(),
            EventView::TabUpdate(tabs) => match focused_tab_of(tabs) {
                Some(tab) => {
                    let (focus, changed) = tab_focus_changed(self.focus, tab.position);
                    (ControllerView { focus, ..self }).refocus(changed)
                },
                None => (self, seq![]),
            },
            EventView::PaneUpdate(manifest) => match self.focus.location.tab_position {
                Some(tab) => match focused_pane_of(manifest, tab) {
                    Some(pane) => {
                        let (focus, changed) = pane_focus_candidate(
                            self.focus,
                            tab,
                            pane.id,
                            pane.command,
                        );
                        (ControllerView { focus, ..self }).refocus(changed)
                    },
                    None => (self, seq![]),
                },
                None => (self, seq![]),
            },
            EventView::SampleResult { tag, result } => {
                if self.granted() && tag == sample_tag() {
                    self.sampled(sample_of(result))
                } else {
                    (self, seq![])
                }
            },
            EventView::Timer => (
                ControllerView { timer: fired(self.timer), ..self },
                if self.granted() {
                    seq![sample_request()]
                } else {
                    seq![]
                },
            ),
            EventView::Poke => {
                if self.granted() {
                    let (next, arms) = self.arm(self.config.reaction_millis);
                    (next, seq![sample_request()] + arms)
                } else {
                    (self, seq![])
                }
            },
        }
    }
}

impl Controller {
    /// A controller that is not loaded yet.
    pub fn new(config: Config) -> (controller: Controller)
        ensures
            controller@ == ControllerView::initial(config@),
    {
        Controller {
            phase: Phase::Uninitialized,
            config,
            focus: FocusTracker::new(),
            mode: InputMode::Normal,
            timer: RetryDebounceTimer::new(),
        }
    }

    /// Tells whether requests may go to the host.
    pub fn permissions_granted(&self) -> (r: bool)
        ensures
            r == self@.granted(),
    {
        self.phase == Phase::Active
    }

    /// The request for a sample.
    pub fn request_sample() -> (action: Action)
        ensures
            action@ == sample_request(),
    {
        Action::RequestSample { tag: owned("autolock") }
    }

    fn arm(&mut self, millis: u64, actions: &mut Vec<Action>)
        ensures
            final(self)@ == old(self)@.arm(millis).0,
            final(actions).deep_view() == old(actions).deep_view() + old(self)@.arm(millis).1,
    {
        if self.timer.schedule(millis) {
            actions.push(Action::ArmTimer { millis });
        }
    }

    fn debounce(&mut self, actions: &mut Vec<Action>)
        ensures
            final(self)@ == old(self)@.debounce().0,
            final(actions).deep_view() == old(actions).deep_view() + old(self)@.debounce().1,
    {
        if self.permissions_granted() {
            let millis = self.config.reaction_millis;
            self.arm(millis, actions);
        }
    }

    fn refocus(&mut self, changed: bool, actions: &mut Vec<Action>)
        ensures
            final(self)@ == old(self)@.refocus(changed).0,
            final(actions).deep_view() == old(actions).deep_view() + old(self)@.refocus(
                changed,
            ).1,
    {
        if changed && self.permissions_granted() {
            if self.config.debounce_focus {
                self.debounce(actions);
            } else {
                actions.push(Controller::request_sample());
            }
        }
    }

    fn sampled(&mut self, outcome: &SampleOutcome, actions: &mut Vec<Action>)
        ensures
            final(self)@ == old(self)@.sampled(outcome@).0,
            final(actions).deep_view() == old(actions).deep_view() + old(self)@.sampled(
                outcome@,
            ).1,
    {
        match outcome {
            SampleOutcome::Indeterminate => {
                let millis = self.config.reaction_millis;
                self.arm(millis, actions);
            },
            SampleOutcome::Resolved(sample) => {
                let d = decide(sample, &self.config.triggers, &self.config.watch_triggers, self.mode);
                if d.apply {
                    actions.push(Action::SwitchMode(d.target));
                }
                if d.keep_watching {
                    let millis = self.config.watch_millis;
                    self.arm(millis, actions);
                }
            },
        }
    }

    /// Takes note that the host loaded the controller and returns the
    /// requests that open the dialogue with the host.
    pub fn on_load(&mut self) -> (actions: Vec<Action>)
        ensures
            (final(self)@, actions.deep_view()) == old(self)@.load(),
    {
        let mut actions: Vec<Action> = Vec::new();
        actions.push(Action::RequestPermission);
        actions.push(Action::Subscribe);
        if self.permissions_granted() {
            actions.push(Action::HideSelf);
        }
        if self.phase == Phase::Uninitialized {
            self.phase = Phase::PermissionPending;
        }
        actions
    }

    /// Handles one event of the host and returns the requests to send
    /// to it, in order.
    pub fn handle(&mut self, event: Event) -> (actions: Vec<Action>)
        ensures
            (final(self)@, actions.deep_view()) == old(self)@.step(event@),
    {
        let mut actions: Vec<Action> = Vec::new();
        match event {
            Event::PermissionResult { granted } => {
                if granted {
                    self.phase = Phase::Active;
                    actions.push(Action::HideSelf);
                } else if self.phase == Phase::Active {
                    self.phase = Phase::PermissionPending;
                }
            },
            Event::ModeUpdate(mode) => {
                self.mode = mode;
                self.debounce(&mut actions);
            },
            Event::InputReceived => {
                self.debounce(&mut actions);
            },
            Event::TabUpdate(tabs) => {
                match get_focused_tab(&tabs) {
                    Some(tab) => {
                        let changed = self.focus.on_tab_focus_changed(tab.position);
                        self.refocus(changed, &mut actions);
                    },
                    None => {},
                }
            },
            Event::PaneUpdate(manifest) => {
                match self.focus.location.tab_position {
                    Some(tab) => {
                        match get_focused_pane(tab, &manifest) {
                            Some(pane) => {
                                let changed = self.focus.on_pane_focus_candidate(
                                    tab,
                                    pane.id,
                                    copy_text(&pane.command),
                                );
                                self.refocus(changed, &mut actions);
                            },
                            None => {},
                        }
                    },
                    None => {},
                }
            },
            Event::SampleResult { tag, result } => {
                if self.permissions_granted() && same_text(tag.as_str(), "autolock") {
                    let outcome = on_result(&result);
                    self.sampled(&outcome, &mut actions);
                }
            },
            Event::Timer => {
                self.timer.on_fire();
                if self.permissions_granted() {
                    actions.push(Controller::request_sample());
                }
            },
            Event::Poke => {
                if self.permissions_granted() {
                    actions.push(Controller::request_sample());
                    let millis = self.config.reaction_millis;
                    self.arm(millis, &mut actions);
                }
            },
        }
        actions
    }
}

} // verus!
