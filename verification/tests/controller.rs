use autolock::config::Config;
use autolock::controller::{Action, Controller, Event, Phase};
use autolock::focus::{FocusedLocation, PaneInfo, PaneManifest, TabInfo};
use autolock::mode::InputMode;
use autolock::names::NameSet;
use autolock::sampler::{ClientInfo, RawResult};
use autolock::timer::RetryDebounceTimer;
use std::collections::HashMap;

const TAG: &str = "autolock";

fn sample_request() -> Action {
    Action::RequestSample { tag: TAG.to_string() }
}

fn active() -> Controller {
    let mut c = Controller::new(Config::default());
    c.on_load();
    c.handle(Event::PermissionResult { granted: true });
    c
}

fn listing(output: &str) -> Event {
    Event::SampleResult { tag: TAG.to_string(), result: RawResult::Listing(output.to_string()) }
}

fn clients(command: &str) -> Event {
    Event::SampleResult {
        tag: TAG.to_string(),
        result: RawResult::Clients(vec![ClientInfo {
            running_command: command.to_string(),
            is_current_client: true,
        }]),
    }
}

fn tabs(active: usize) -> Event {
    Event::TabUpdate(vec![
        TabInfo { position: 0, active: active == 0 },
        TabInfo { position: 1, active: active == 1 },
        TabInfo { position: 2, active: active == 2 },
    ])
}

fn panes(tab: usize, focused: u32, command: Option<&str>) -> Event {
    let mut panes: HashMap<usize, Vec<PaneInfo>> = HashMap::new();
    panes.insert(
        tab + 1,
        vec![PaneInfo { id: 90, is_plugin: false, is_focused: true, command: None }],
    );
    panes.insert(
        tab,
        vec![
            PaneInfo { id: 0, is_plugin: true, is_focused: true, command: None },
            PaneInfo {
                id: focused,
                is_plugin: false,
                is_focused: true,
                command: command.map(|c| c.to_string()),
            },
        ],
    );
    Event::PaneUpdate(PaneManifest { panes })
}

#[test]
fn new_controller_is_uninitialized() {
    let c = Controller::new(Config::default());
    assert_eq!(c.phase, Phase::Uninitialized);
    assert_eq!(c.mode, InputMode::Normal);
    assert_eq!(c.focus.location, FocusedLocation { tab_position: None, pane_id: None });
    assert_eq!(c.timer, RetryDebounceTimer { pending: false, interval_millis: 0 });
    assert!(!c.permissions_granted());
}

#[test]
fn load_asks_for_permission_and_subscribes() {
    let mut config = Config::default();
    config.reaction_millis = 750;
    let mut c = Controller::new(config);
    let actions = c.on_load();
    assert_eq!(actions, vec![Action::RequestPermission, Action::Subscribe]);
    assert_eq!(c.phase, Phase::PermissionPending);
    assert_eq!(c.config.reaction_millis, 750);
    assert_eq!(c.on_load(), vec![Action::RequestPermission, Action::Subscribe]);
    assert_eq!(c.phase, Phase::PermissionPending);
}

#[test]
fn load_after_the_grant_hides_the_surface() {
    let mut c = Controller::new(Config::default());
    c.handle(Event::PermissionResult { granted: true });
    let actions = c.on_load();
    assert_eq!(actions, vec![Action::RequestPermission, Action::Subscribe, Action::HideSelf]);
    assert_eq!(c.phase, Phase::Active);
}

#[test]
fn grant_activates_and_hides_the_surface() {
    let mut c = Controller::new(Config::default());
    c.on_load();
    let actions = c.handle(Event::PermissionResult { granted: true });
    assert_eq!(actions, vec![Action::HideSelf]);
    assert_eq!(c.phase, Phase::Active);
    assert!(c.permissions_granted());
}

#[test]
fn denial_disables_and_a_later_grant_enables() {
    let mut c = Controller::new(Config::default());
    c.on_load();
    assert!(c.handle(Event::PermissionResult { granted: false }).is_empty());
    assert_eq!(c.phase, Phase::PermissionPending);
    assert!(c.handle(clients("vim")).is_empty());
    assert_eq!(c.handle(Event::PermissionResult { granted: true }), vec![Action::HideSelf]);
    assert_eq!(c.handle(clients("vim")), vec![Action::SwitchMode(InputMode::Locked)]);
    assert!(c.handle(Event::PermissionResult { granted: false }).is_empty());
    assert_eq!(c.phase, Phase::PermissionPending);
    assert!(c.handle(clients("vim")).is_empty());
}

#[test]
fn without_permission_events_are_recorded_and_nothing_is_requested() {
    let mut c = Controller::new(Config::default());
    c.on_load();
    assert!(c.handle(Event::ModeUpdate(InputMode::Locked)).is_empty());
    assert_eq!(c.mode, InputMode::Locked);
    assert!(c.handle(tabs(1)).is_empty());
    assert!(c.handle(panes(1, 4, None)).is_empty());
    assert_eq!(c.focus.location, FocusedLocation { tab_position: Some(1), pane_id: Some(4) });
    assert!(c.handle(Event::InputReceived).is_empty());
    assert!(c.handle(Event::Poke).is_empty());
    assert!(c.handle(Event::Timer).is_empty());
    assert!(c.handle(clients("vim")).is_empty());
    assert!(c.handle(listing("")).is_empty());
    assert!(!c.timer.pending);
}

#[test]
fn mode_update_is_recorded_and_arms_the_timer() {
    let mut c = active();
    let actions = c.handle(Event::ModeUpdate(InputMode::Pane));
    assert_eq!(actions, vec![Action::ArmTimer { millis: 300 }]);
    assert_eq!(c.mode, InputMode::Pane);
    assert_eq!(c.timer, RetryDebounceTimer { pending: true, interval_millis: 300 });
}

#[test]
fn burst_of_signals_arms_one_timer_and_samples_once() {
    let mut c = active();
    let mut sent: Vec<Action> = Vec::new();
    sent.extend(c.handle(Event::ModeUpdate(InputMode::Tab)));
    sent.extend(c.handle(Event::InputReceived));
    sent.extend(c.handle(Event::ModeUpdate(InputMode::Normal)));
    sent.extend(c.handle(Event::InputReceived));
    sent.extend(c.handle(Event::InputReceived));
    assert_eq!(sent, vec![Action::ArmTimer { millis: 300 }]);
    assert!(c.timer.pending);
    assert_eq!(c.handle(Event::Timer), vec![sample_request()]);
    assert!(!c.timer.pending);
    assert_eq!(c.handle(Event::InputReceived), vec![Action::ArmTimer { millis: 300 }]);
}

#[test]
fn debounced_focus_changes_arm_one_timer() {
    let mut c = active();
    c.config.debounce_focus = true;
    let mut sent: Vec<Action> = Vec::new();
    sent.extend(c.handle(tabs(1)));
    sent.extend(c.handle(panes(1, 4, None)));
    sent.extend(c.handle(panes(1, 5, None)));
    sent.extend(c.handle(tabs(2)));
    assert_eq!(sent, vec![Action::ArmTimer { millis: 300 }]);
    assert_eq!(c.handle(Event::Timer), vec![sample_request()]);
}

#[test]
fn tab_change_forgets_the_pane_and_samples() {
    let mut c = active();
    c.handle(tabs(1));
    c.handle(panes(1, 7, None));
    assert_eq!(c.focus.location, FocusedLocation { tab_position: Some(1), pane_id: Some(7) });
    let actions = c.handle(tabs(2));
    assert_eq!(actions, vec![sample_request()]);
    assert_eq!(c.focus.location, FocusedLocation { tab_position: Some(2), pane_id: None });
    assert!(c.handle(tabs(2)).is_empty());
}

#[test]
fn tab_update_without_an_active_tab_changes_nothing() {
    let mut c = active();
    c.handle(tabs(1));
    assert!(c.handle(tabs(9)).is_empty());
    assert_eq!(c.focus.location.tab_position, Some(1));
}

#[test]
fn pane_update_samples_when_the_focused_pane_changes() {
    let mut c = active();
    assert!(c.handle(panes(0, 3, None)).is_empty());
    c.handle(tabs(0));
    assert_eq!(c.handle(panes(0, 3, None)), vec![sample_request()]);
    assert_eq!(c.focus.location.pane_id, Some(3));
    assert!(c.handle(panes(0, 3, None)).is_empty());
    assert_eq!(c.handle(panes(0, 4, None)), vec![sample_request()]);
    assert_eq!(c.handle(panes(0, 4, Some("vim"))), vec![sample_request()]);
    assert!(c.handle(panes(0, 4, Some("vim"))).is_empty());
    assert!(c.handle(panes(2, 8, None)).is_empty());
    assert_eq!(c.focus.location, FocusedLocation { tab_position: Some(0), pane_id: Some(4) });
}

#[test]
fn trigger_sample_locks_from_normal() {
    let mut c = active();
    let actions = c.handle(clients("nvim somefile.txt"));
    assert_eq!(actions, vec![Action::SwitchMode(InputMode::Locked)]);
    assert_eq!(c.mode, InputMode::Normal);
    assert!(!c.timer.pending);
}

#[test]
fn settings_read_after_the_load_are_used() {
    let mut c = active();
    c.config.set("triggers", "hx");
    c.config.set_interval("reaction_seconds", 1_000_000);
    assert!(c.handle(clients("vim")).is_empty());
    assert_eq!(c.handle(clients("hx a")), vec![Action::SwitchMode(InputMode::Locked)]);
    assert_eq!(c.handle(Event::InputReceived), vec![Action::ArmTimer { millis: 1_000_000 }]);
}

#[test]
fn trigger_listed_with_its_path_locks() {
    let mut c = active();
    c.config.set("triggers", "/usr/bin/vim");
    assert_eq!(c.handle(clients("/usr/bin/vim")), vec![Action::SwitchMode(InputMode::Locked)]);
    assert_eq!(c.handle(clients("/usr/bin/vim a.txt")), vec![Action::SwitchMode(InputMode::Locked)]);
    assert!(c.handle(clients("vim")).is_empty());
    assert!(c.handle(clients("/opt/vim")).is_empty());
}

#[test]
fn same_sample_switches_once() {
    let mut c = active();
    assert_eq!(c.handle(clients("vim")), vec![Action::SwitchMode(InputMode::Locked)]);
    c.handle(Event::ModeUpdate(InputMode::Locked));
    c.handle(Event::Timer);
    assert!(c.handle(clients("vim")).is_empty());
    assert!(c.handle(clients("vim")).is_empty());
}

#[test]
fn exit_of_the_editor_releases_the_lock() {
    let mut c = active();
    c.handle(Event::ModeUpdate(InputMode::Locked));
    c.handle(Event::Timer);
    assert_eq!(c.handle(clients("N/A")), vec![Action::SwitchMode(InputMode::Normal)]);
    assert_eq!(c.handle(clients("bash")), vec![Action::SwitchMode(InputMode::Normal)]);
}

#[test]
fn third_mode_is_never_overridden() {
    let mut c = active();
    c.handle(Event::ModeUpdate(InputMode::Search));
    c.handle(Event::Timer);
    assert!(c.handle(clients("vim")).is_empty());
    assert!(c.handle(clients("bash")).is_empty());
    assert!(c.handle(listing("H\n1 2 terminal vim\n")).is_empty());
    assert_eq!(c.mode, InputMode::Search);
}

#[test]
fn empty_listing_is_retried_and_a_later_sample_locks() {
    let mut c = active();
    let actions = c.handle(listing(""));
    assert_eq!(actions, vec![Action::ArmTimer { millis: 300 }]);
    assert_eq!(c.mode, InputMode::Normal);
    assert!(c.handle(listing("")).is_empty());
    assert_eq!(c.handle(Event::Timer), vec![sample_request()]);
    let locked = c.handle(listing(
        "CLIENT_ID  PANE_ID  PANE_KIND  RUNNING_COMMAND\n1  7  terminal  /usr/bin/vim\n",
    ));
    assert_eq!(locked, vec![Action::SwitchMode(InputMode::Locked)]);
}

#[test]
fn empty_client_list_is_retried() {
    let mut c = active();
    let event = Event::SampleResult { tag: TAG.to_string(), result: RawResult::Clients(Vec::new()) };
    assert_eq!(c.handle(event), vec![Action::ArmTimer { millis: 300 }]);
}

#[test]
fn answer_with_another_tag_is_ignored() {
    let mut c = active();
    let event = Event::SampleResult {
        tag: "something-else".to_string(),
        result: RawResult::Listing("H\n1 2 terminal vim\n".to_string()),
    };
    assert!(c.handle(event).is_empty());
    let empty = Event::SampleResult { tag: String::new(), result: RawResult::Listing(String::new()) };
    assert!(c.handle(empty).is_empty());
    assert!(!c.timer.pending);
}

#[test]
fn watched_command_keeps_sampling_until_it_is_gone() {
    let mut config = Config::default();
    config.watch_triggers = NameSet::parse("git");
    config.watch_millis = 2000;
    let mut c = Controller::new(config);
    c.on_load();
    c.handle(Event::PermissionResult { granted: true });
    assert_eq!(
        c.handle(clients("git rebase -i")),
        vec![Action::SwitchMode(InputMode::Locked), Action::ArmTimer { millis: 2000 }]
    );
    assert_eq!(c.timer, RetryDebounceTimer { pending: true, interval_millis: 2000 });
    c.handle(Event::ModeUpdate(InputMode::Locked));
    assert_eq!(c.handle(Event::Timer), vec![sample_request()]);
    assert_eq!(c.handle(clients("git rebase -i")), vec![Action::ArmTimer { millis: 2000 }]);
    assert_eq!(c.handle(Event::Timer), vec![sample_request()]);
    assert_eq!(c.handle(clients("bash")), vec![Action::SwitchMode(InputMode::Normal)]);
    assert!(!c.timer.pending);
}

#[test]
fn timer_fire_requests_one_sample() {
    let mut c = active();
    c.handle(Event::InputReceived);
    assert_eq!(c.handle(Event::Timer), vec![sample_request()]);
    assert!(!c.timer.pending);
    assert_eq!(c.handle(Event::Timer), vec![sample_request()]);
}

#[test]
fn poke_samples_at_once_and_arms_the_timer() {
    let mut c = active();
    assert_eq!(c.handle(Event::Poke), vec![sample_request(), Action::ArmTimer { millis: 300 }]);
    assert_eq!(c.handle(Event::Poke), vec![sample_request()]);
}

#[test]
fn request_sample_carries_the_sampling_tag() {
    assert_eq!(Controller::request_sample(), sample_request());
}
