//! What holds of the library's rules in general: of the text it reads,
//! of the policy, and of the controller in every state and for every
//! event.

use crate::config::{names_interval, ConfigView};
use crate::controller::{sample_request, sample_tag, ActionView, ControllerView, EventView};
use crate::focus::{
    active_flags, focus_flags, focused_among, focused_pane_of, focused_tab_of, PaneInfoView,
    TabInfo,
};
use crate::mode::{command_in, decision, Decision, InputMode};
use crate::sampler::{
    classify_text, client_flags, command_of, row_flags, sample_clients, sample_listing, sample_of,
    CommandView, RawResultView, SampleOutcomeView,
};
use crate::search::{first_true, lemma_first_true, lemma_first_true_bounds};
use crate::text::{
    after_last, first_at, is_space, lemma_after_last, lemma_after_last_bounds,
    lemma_first_at_bounds, lemma_trimmed_is_tight, split, trimmed,
};
use crate::timer::RetryDebounceTimer;
use vstd::prelude::*;

verus! {

/// The kinds of request that go to the host.
pub enum ActionKind {
    RequestPermission,
    Subscribe,
    HideSelf,
    RequestSample,
    SwitchMode,
    ArmTimer,
}

/// The kind of a request.
pub open spec fn kind_of(action: ActionView) -> ActionKind {
    match action {
        ActionView::RequestPermission => ActionKind::RequestPermission,
        ActionView::Subscribe => ActionKind::Subscribe,
        ActionView::HideSelf => ActionKind::HideSelf,
        ActionView::RequestSample { .. } => ActionKind::RequestSample,
        ActionView::SwitchMode(_) => ActionKind::SwitchMode,
        ActionView::ArmTimer { .. } => ActionKind::ArmTimer,
    }
}

/// How many of the requests are of the given kind.
pub open spec fn count(actions: Seq<ActionView>, kind: ActionKind) -> nat
    decreases actions.len(),
{
    if actions.len() == 0 {
        0
    } else {
        count(actions.drop_last(), kind) + if kind_of(actions.last()) == kind {
            1nat
        } else {
            0nat
        }
    }
}

/// The state after a series of events, and all the requests that went
/// out, in order.
pub open spec fn run(c: ControllerView, events: Seq<EventView>) -> (ControllerView, Seq<ActionView>)
    decreases events.len(),
{
    if events.len() == 0 {
        (c, seq![])
    } else {
        let (before, sent) = run(c, events.drop_last());
        let (after, more) = before.step(events.last());
        (after, sent + more)
    }
}

/// 1 for a pending timer, 0 for none.
pub open spec fn pending_timers(c: ControllerView) -> int {
    if c.timer.pending {
        1
    } else {
        0
    }
}

/// A signal that is gathered with others and answered through the
/// timer: a change of the input mode, input of the user and, where the
/// settings say so, a change of focus.
pub open spec fn is_debounced_signal(c: ControllerView, event: EventView) -> bool {
    match event {
        EventView::ModeUpdate(_) => true,
        EventView::InputReceived => true,
        EventView::TabUpdate(_) => c.config.debounce_focus && c.step(event).0.focus != c.focus,
        EventView::PaneUpdate(_) => c.config.debounce_focus && c.step(event).0.focus != c.focus,
        _ => false,
    }
}

/// Whether every event of a series is a debounced signal in the state
/// that it meets.
pub open spec fn is_burst(c: ControllerView, events: Seq<EventView>) -> bool
    decreases events.len(),
{
    events.len() > 0 ==> is_burst(c, events.drop_last()) && is_debounced_signal(
        run(c, events.drop_last()).0,
        events.last(),
    )
}

/// Counting distributes over concatenation.
pub proof fn lemma_count_concat(a: Seq<ActionView>, b: Seq<ActionView>, kind: ActionKind)
    ensures
        count(a + b, kind) == count(a, kind) + count(b, kind),
    decreases b.len(),
{
    if b.len() > 0 {
        assert((a + b).drop_last() == a + b.drop_last());
        lemma_count_concat(a, b.drop_last(), kind);
    }
}

/// The count of a list of one or two requests.
proof fn lemma_count_small(actions: Seq<ActionView>, kind: ActionKind)
    requires
        actions.len() <= 2,
    ensures
        actions.len() == 0 ==> count(actions, kind) == 0,
        actions.len() == 1 ==> count(actions, kind) == if kind_of(actions[0]) == kind {
            1nat
        } else {
            0nat
        },
        actions.len() == 2 ==> count(actions, kind) == (if kind_of(actions[0]) == kind {
            1nat
        } else {
            0nat
        }) + (if kind_of(actions[1]) == kind {
            1nat
        } else {
            0nat
        }),
{
    if actions.len() >= 1 {
        let init = actions.drop_last();
        if init.len() >= 1 {
            assert(count(init, kind) == count(init.drop_last(), kind) + if kind_of(init.last())
                == kind {
                1nat
            } else {
                0nat
            });
        } else {
            assert(count(init, kind) == 0);
        }
    }
}

/// The focused tab is an active tab with no active tab before it; there
/// is none exactly when no tab is active.
pub proof fn lemma_focused_tab(tabs: Seq<TabInfo>)
    ensures
        match focused_tab_of(tabs) {
            Some(tab) => exists|i: int|
                0 <= i < tabs.len() && #[trigger] tabs[i] == tab && tab.active && forall|j: int|
                    0 <= j < i ==> !(#[trigger] tabs[j]).active,
            None => forall|j: int| 0 <= j < tabs.len() ==> !(#[trigger] tabs[j]).active,
        },
{
    let flags = active_flags(tabs);
    let at = first_true(flags, 0);
    lemma_first_true_bounds(flags, 0);
    assert forall|j: int| 0 <= j < at implies !(#[trigger] tabs[j]).active by {
        assert(!flags[j]);
    }
}

/// The focused pane of a list is a focused pane that is no plugin, with
/// no such pane before it; there is none exactly when the list has no
/// such pane.
pub proof fn lemma_focused_among(panes: Seq<PaneInfoView>)
    ensures
        match focused_among(panes) {
            Some(pane) => exists|i: int|
                0 <= i < panes.len() && #[trigger] panes[i] == pane && pane.is_focused
                    && !pane.is_plugin && forall|j: int|
                    0 <= j < i ==> !((#[trigger] panes[j]).is_focused && !panes[j].is_plugin),
            None => forall|j: int|
                0 <= j < panes.len() ==> !((#[trigger] panes[j]).is_focused && !panes[j].is_plugin),
        },
{
    let flags = focus_flags(panes);
    let at = first_true(flags, 0);
    lemma_first_true_bounds(flags, 0);
    assert forall|j: int| 0 <= j < at implies !((#[trigger] panes[j]).is_focused
        && !panes[j].is_plugin) by {
        assert(!flags[j]);
    }
}

/// A tab that the manifest does not hold has no focused pane, and the
/// focused pane of any other tab is one of its panes.
pub proof fn lemma_focused_pane(manifest: Map<usize, Seq<PaneInfoView>>, tab: usize)
    ensures
        !manifest.contains_key(tab) ==> focused_pane_of(manifest, tab).is_none(),
        focused_pane_of(manifest, tab) matches Some(pane) ==> manifest.contains_key(tab)
            && manifest[tab].contains(pane) && pane.is_focused && !pane.is_plugin,
{
    if manifest.contains_key(tab) {
        lemma_focused_among(manifest[tab]);
    }
}

/// The shape of a sampled command: its program is free of whitespace,
/// begins the text and is followed by whitespace or nothing; the stripped
/// forms are the ends of the reported ones, hold no `/` in the program,
/// and what was dropped before them ends in `/`.
pub proof fn lemma_command_shape(text: Seq<char>)
    ensures
        ({
            let c = command_of(text);
            let cut = after_last(text, '/', first_at(text, 0, true));
            &&& c.invocation == text
            &&& c.program.is_prefix_of(c.invocation)
            &&& forall|i: int| 0 <= i < c.program.len() ==> !is_space(#[trigger] c.program[i])
            &&& c.program.len() < c.invocation.len() ==> is_space(
                c.invocation[c.program.len() as int],
            )
            &&& 0 <= cut <= c.program.len()
            &&& c.normalized == c.invocation.skip(cut)
            &&& c.base_token == c.program.skip(cut)
            &&& cut > 0 ==> text[cut - 1] == '/'
            &&& c.base_token.is_prefix_of(c.normalized)
            &&& forall|i: int| 0 <= i < c.base_token.len() ==> #[trigger] c.base_token[i] != '/'
        }),
{
    let end = first_at(text, 0, true);
    lemma_first_at_bounds(text, 0, true);
    lemma_after_last_bounds(text, '/', end);
}

/// A command whose program is reported without directories has the same
/// stripped and reported forms.
pub proof fn lemma_plain_command(text: Seq<char>)
    requires
        forall|i: int| 0 <= i < first_at(text, 0, true) ==> #[trigger] text[i] != '/',
    ensures
        command_of(text).normalized == command_of(text).invocation,
        command_of(text).base_token == command_of(text).program,
{
    let end = first_at(text, 0, true);
    lemma_first_at_bounds(text, 0, true);
    lemma_after_last(text, '/', end, 0);
}

/// A name matches a command in any of its forms: listed as the host
/// reports the text or the program, directories included, or listed
/// without them.
pub proof fn lemma_command_in(text: Seq<char>, names: Set<Seq<char>>)
    ensures
        ({
            let end = first_at(text, 0, true);
            let cut = after_last(text, '/', end);
            command_in(Some(command_of(text)), names) <==> names.contains(text) || names.contains(
                text.subrange(0, end),
            ) || names.contains(text.skip(cut)) || names.contains(text.subrange(cut, end))
        }),
{
}

/// What a command text resolves to: nothing usable exactly when it is
/// blank, and a command that is neither blank nor led by whitespace
/// otherwise, unless the text is the marker of no command.
pub proof fn lemma_classified(raw: Seq<char>)
    ensures
        classify_text(raw) is Indeterminate <==> forall|k: int|
            0 <= k < raw.len() ==> is_space(#[trigger] raw[k]),
        classify_text(raw) matches SampleOutcomeView::Resolved(Some(c)) ==> c == command_of(
            trimmed(raw),
        ) && trimmed(raw).len() > 0 && !is_space(trimmed(raw)[0]),
{
    lemma_trimmed_is_tight(raw);
}

/// Idempotence of the policy: once the host is in the mode that a sample
/// called for, or was left in its own mode, the same sample asks for no
/// switch and calls for the same mode.
pub proof fn lemma_decision_settles(
    sample: Option<CommandView>,
    triggers: Set<Seq<char>>,
    watches: Set<Seq<char>>,
    current: InputMode,
)
    ensures
        ({
            let first = decision(sample, triggers, watches, current);
            let settled = if first.apply {
                first.target
            } else {
                current
            };
            let again = decision(sample, triggers, watches, settled);
            !again.apply && again.target == first.target && again.keep_watching
                == first.keep_watching
        }),
{
}

/// Idempotence of the controller: with the host's mode as the first
/// answer to a sample left it, the same sample sends no switch.
pub proof fn lemma_sample_settles(c: ControllerView, sample: Option<CommandView>)
    ensures
        ({
            let first = decision(sample, c.config.triggers, c.config.watch_triggers, c.mode);
            let settled = ControllerView {
                mode: if first.apply {
                    first.target
                } else {
                    c.mode
                },
                ..c
            };
            count(settled.sampled(SampleOutcomeView::Resolved(sample)).1, ActionKind::SwitchMode)
                == 0
        }),
{
    let first = decision(sample, c.config.triggers, c.config.watch_triggers, c.mode);
    let settled = ControllerView { mode: if first.apply { first.target } else { c.mode }, ..c };
    lemma_decision_settles(sample, c.config.triggers, c.config.watch_triggers, c.mode);
    lemma_count_small(
        settled.sampled(SampleOutcomeView::Resolved(sample)).1,
        ActionKind::SwitchMode,
    );
}

/// The mode that the host is in once it has carried out the requests:
/// the one of the last switch among them, or `current` without one.
pub open spec fn mode_requested(actions: Seq<ActionView>, current: InputMode) -> InputMode
    decreases actions.len(),
{
    if actions.len() == 0 {
        current
    } else {
        match actions.last() {
            ActionView::SwitchMode(mode) => mode,
            _ => mode_requested(actions.drop_last(), current),
        }
    }
}

/// Idempotence over events: once the host has carried out the requests
/// of an event and has reported its mode, the same event leads to no
/// further switch.
pub proof fn lemma_confirmed_switch_is_not_repeated(c: ControllerView, event: EventView)
    ensures
        ({
            let (first, requests) = c.step(event);
            let confirmed = first.step(EventView::ModeUpdate(mode_requested(requests, c.mode))).0;
            count(confirmed.step(event).1, ActionKind::SwitchMode) == 0
        }),
{
    let (first, requests) = c.step(event);
    let mode = mode_requested(requests, c.mode);
    let confirmed = first.step(EventView::ModeUpdate(mode)).0;
    lemma_count_small(confirmed.step(event).1, ActionKind::SwitchMode);
    match event {
        EventView::SampleResult { tag, result } => {
            if c.granted() && tag == sample_tag() {
                match sample_of(result) {
                    SampleOutcomeView::Resolved(sample) => {
                        let d = decision(
                            sample,
                            c.config.triggers,
                            c.config.watch_triggers,
                            c.mode,
                        );
                        lemma_decision_settles(
                            sample,
                            c.config.triggers,
                            c.config.watch_triggers,
                            c.mode,
                        );
                        if requests.len() == 1 {
                            assert(mode_requested(requests.drop_last(), c.mode) == c.mode);
                        }
                    },
                    SampleOutcomeView::Indeterminate => {},
                }
            }
        },
        _ => {},
    }
}

/// Every request for a sample carries the tag of sampling.
pub proof fn lemma_requests_are_tagged(c: ControllerView, event: EventView)
    ensures
        forall|i: int|
            0 <= i < c.step(event).1.len() ==> (#[trigger] c.step(event).1[i] matches ActionView::RequestSample {
                tag,
            } ==> tag == sample_tag()),
{
}

/// A command of the trigger set calls for the locked mode whatever the
/// current mode is, and the switch is requested from the normal mode.
pub proof fn lemma_trigger_locks(
    sample: Option<CommandView>,
    triggers: Set<Seq<char>>,
    watches: Set<Seq<char>>,
    current: InputMode,
)
    requires
        command_in(sample, triggers),
    ensures
        decision(sample, triggers, watches, current).target == InputMode::Locked,
        decision(sample, triggers, watches, current).apply == (current == InputMode::Normal),
{
}

/// When no command runs any more, the locked mode is released.
pub proof fn lemma_release_on_exit(triggers: Set<Seq<char>>, watches: Set<Seq<char>>)
    ensures
        decision(None, triggers, watches, InputMode::Locked) == (Decision {
            target: InputMode::Normal,
            apply: true,
            keep_watching: false,
        }),
{
}

/// The policy asks for a switch only out of the normal or the locked
/// mode, and only into the other of the two.
pub proof fn lemma_decision_within_authority(
    sample: Option<CommandView>,
    triggers: Set<Seq<char>>,
    watches: Set<Seq<char>>,
    current: InputMode,
)
    ensures
        ({
            let d = decision(sample, triggers, watches, current);
            d.apply ==> current.in_authority() && d.target.in_authority() && d.target != current
        }),
{
}

/// The controller requests a switch only out of the normal or the locked
/// mode, only into the other of the two, and at most once per event.
pub proof fn lemma_switch_within_authority(c: ControllerView, event: EventView)
    ensures
        count(c.step(event).1, ActionKind::SwitchMode) <= 1,
        !c.mode.in_authority() ==> count(c.step(event).1, ActionKind::SwitchMode) == 0,
        forall|i: int|
            0 <= i < c.step(event).1.len() ==> (#[trigger] c.step(event).1[i] matches ActionView::SwitchMode(
                target,
            ) ==> c.mode.in_authority() && target.in_authority() && target != c.mode),
{
    lemma_count_small(c.step(event).1, ActionKind::SwitchMode);
}

/// While the permissions are not granted, nothing is sampled, switched
/// or timed.
pub proof fn lemma_quiet_without_permission(c: ControllerView, event: EventView)
    requires
        !c.granted(),
    ensures
        count(c.step(event).1, ActionKind::RequestSample) == 0,
        count(c.step(event).1, ActionKind::SwitchMode) == 0,
        count(c.step(event).1, ActionKind::ArmTimer) == 0,
        !(event matches EventView::PermissionResult { granted: true }) ==> c.step(event).1
            == Seq::<ActionView>::empty(),
{
    lemma_count_small(c.step(event).1, ActionKind::RequestSample);
    lemma_count_small(c.step(event).1, ActionKind::SwitchMode);
    lemma_count_small(c.step(event).1, ActionKind::ArmTimer);
}

/// Reading an interval changes no other setting, reading a text
/// changes no interval, and a key that is not known changes nothing.
pub proof fn lemma_keys_are_separate(
    config: ConfigView,
    key: Seq<char>,
    value: Seq<char>,
    millis: u64,
)
    ensures
        config.with_interval(key, millis).triggers == config.triggers,
        config.with_interval(key, millis).watch_triggers == config.watch_triggers,
        config.with_interval(key, millis).print_to_log == config.print_to_log,
        config.with_interval(key, millis).debounce_focus == config.debounce_focus,
        config.with_text(key, value).reaction_millis == config.reaction_millis,
        config.with_text(key, value).watch_millis == config.watch_millis,
        config.with_text(key, value).debounce_focus == config.debounce_focus,
        !names_interval(key) ==> config.with_interval(key, millis) == config,
        names_interval(key) ==> config.with_text(key, value) == config,
{
    reveal_strlit("triggers");
    reveal_strlit("watch_triggers");
    reveal_strlit("print_to_log");
    reveal_strlit("reaction_seconds");
    reveal_strlit("watch_interval");
    if names_interval(key) {
        assert(key.len() == 16 || key.len() == 14);
        assert("watch_interval"@[6] != "watch_triggers"@[6]);
    }
}

/// The settings are fixed: no event changes them.
pub proof fn lemma_settings_are_fixed(c: ControllerView, event: EventView)
    ensures
        c.step(event).0.config == c.config,
{
}

/// The mode is the one that the host reported last: a request for a
/// switch does not change what the controller takes the mode to be.
pub proof fn lemma_mode_follows_host(c: ControllerView, event: EventView)
    ensures
        c.step(event).0.mode == match event {
            EventView::ModeUpdate(mode) => mode,
            _ => c.mode,
        },
{
}

/// An answer whose tag is not that of sampling changes nothing.
pub proof fn lemma_foreign_answer_ignored(c: ControllerView, tag: Seq<char>, result: RawResultView)
    requires
        tag != sample_tag(),
    ensures
        c.step(EventView::SampleResult { tag, result }) == (c, Seq::<ActionView>::empty()),
{
}

/// Whenever the tracked tab changes, the pane is unknown afterwards.
pub proof fn lemma_new_tab_forgets_pane(c: ControllerView, event: EventView)
    ensures
        c.step(event).0.focus.location.tab_position != c.focus.location.tab_position
            ==> c.step(event).0.focus.location.pane_id.is_none(),
{
}

/// An answer without a client resolves to nothing usable, and so does an
/// empty output of the listing command.
pub proof fn lemma_empty_answer_indeterminate()
    ensures
        sample_clients(Seq::empty()) == SampleOutcomeView::Indeterminate,
        sample_listing(Seq::empty()) == SampleOutcomeView::Indeterminate,
{
    lemma_first_true(client_flags(Seq::empty()), 0, 0);
    let lines = split(Seq::<char>::empty(), '\n');
    lemma_first_true(row_flags(lines), 0, 1);
}

/// An answer that holds nothing usable decides nothing: the state keeps
/// its mode, no switch is requested, and the timer is armed for the
/// reaction interval unless one is pending.
pub proof fn lemma_indeterminate_retries(c: ControllerView, result: RawResultView)
    requires
        c.granted(),
        sample_of(result) == SampleOutcomeView::Indeterminate,
    ensures
        ({
            let (next, actions) = c.step(EventView::SampleResult { tag: sample_tag(), result });
            &&& next.mode == c.mode
            &&& next.focus == c.focus
            &&& next.timer.pending
            &&& actions == if c.timer.pending {
                Seq::<ActionView>::empty()
            } else {
                seq![ActionView::ArmTimer { millis: c.config.reaction_millis }]
            }
        }),
{
}

/// After an answer that held nothing usable, the timer fires, one
/// sample is requested, and an answer that names a command of the
/// trigger set locks the normal mode.
pub proof fn lemma_retry_locks(c: ControllerView, nothing: RawResultView, answer: RawResultView)
    requires
        c.granted(),
        c.mode == InputMode::Normal,
        sample_of(nothing) == SampleOutcomeView::Indeterminate,
        sample_of(answer) matches SampleOutcomeView::Resolved(sample) && command_in(
            sample,
            c.config.triggers,
        ),
    ensures
        ({
            let waiting = c.step(EventView::SampleResult { tag: sample_tag(), result: nothing }).0;
            let (asked, requests) = waiting.step(EventView::Timer);
            let answered = asked.step(EventView::SampleResult { tag: sample_tag(), result: answer });
            &&& waiting.timer.pending
            &&& requests == seq![sample_request()]
            &&& answered.1.len() >= 1
            &&& answered.1[0] == ActionView::SwitchMode(InputMode::Locked)
            &&& count(answered.1, ActionKind::SwitchMode) == 1
        }),
{
    let waiting = c.step(EventView::SampleResult { tag: sample_tag(), result: nothing }).0;
    let asked = waiting.step(EventView::Timer).0;
    let answered = asked.step(EventView::SampleResult { tag: sample_tag(), result: answer });
    lemma_count_small(answered.1, ActionKind::SwitchMode);
}

/// Each event arms the timer as often as it takes the number of pending
/// timers up; only the firing of the timer takes it down.
pub proof fn lemma_step_arms(c: ControllerView, event: EventView)
    ensures
        event != EventView::Timer ==> count(c.step(event).1, ActionKind::ArmTimer)
            == pending_timers(c.step(event).0) - pending_timers(c),
        event == EventView::Timer ==> count(c.step(event).1, ActionKind::ArmTimer) == 0
            && !c.step(event).0.timer.pending,
{
    lemma_count_small(c.step(event).1, ActionKind::ArmTimer);
}

/// At most one timer is pending: over a series of events in which the
/// timer does not fire, it is armed once if none was pending and one is
/// in the end, and not at all otherwise.
pub proof fn lemma_one_timer_pending(c: ControllerView, events: Seq<EventView>)
    requires
        forall|i: int| 0 <= i < events.len() ==> events[i] != EventView::Timer,
    ensures
        count(run(c, events).1, ActionKind::ArmTimer) == pending_timers(run(c, events).0)
            - pending_timers(c),
    decreases events.len(),
{
    if events.len() > 0 {
        let (before, sent) = run(c, events.drop_last());
        let (after, more) = before.step(events.last());
        lemma_one_timer_pending(c, events.drop_last());
        lemma_step_arms(before, events.last());
        lemma_count_concat(sent, more, ActionKind::ArmTimer);
    }
}

/// A debounced signal changes neither the permissions nor the settings,
/// leaves a timer pending, and sends no request but to arm the timer.
pub proof fn lemma_signal_is_gathered(c: ControllerView, event: EventView)
    requires
        c.granted(),
        is_debounced_signal(c, event),
    ensures
        c.step(event).0.granted(),
        c.step(event).0.config == c.config,
        c.step(event).0.timer.pending,
        !c.timer.pending ==> c.step(event).0.timer.interval_millis == c.config.reaction_millis,
        c.timer.pending ==> c.step(event).0.timer == c.timer,
        count(c.step(event).1, ActionKind::RequestSample) == 0,
        count(c.step(event).1, ActionKind::SwitchMode) == 0,
{
    lemma_count_small(c.step(event).1, ActionKind::RequestSample);
    lemma_count_small(c.step(event).1, ActionKind::SwitchMode);
}

/// Debounce coalescing: a burst of signals, however long, arms the
/// timer exactly once and samples nothing; when the timer fires, exactly
/// one sample is requested and no timer is pending.
pub proof fn lemma_burst_arms_once(c: ControllerView, signals: Seq<EventView>)
    requires
        c.granted(),
        !c.timer.pending,
        signals.len() >= 1,
        is_burst(c, signals),
    ensures
        count(run(c, signals).1, ActionKind::ArmTimer) == 1,
        count(run(c, signals).1, ActionKind::RequestSample) == 0,
        count(run(c, signals).1, ActionKind::SwitchMode) == 0,
        run(c, signals).0.timer == (RetryDebounceTimer {
            pending: true,
            interval_millis: c.config.reaction_millis,
        }),
        run(c, signals).0.step(EventView::Timer).1 == seq![sample_request()],
        !run(c, signals).0.step(EventView::Timer).0.timer.pending,
    decreases signals.len(),
{
    let (before, sent) = run(c, signals.drop_last());
    let (after, more) = before.step(signals.last());
    if signals.len() > 1 {
        lemma_burst_arms_once(c, signals.drop_last());
        lemma_burst_keeps(c, signals.drop_last());
    }
    lemma_signal_is_gathered(before, signals.last());
    lemma_step_arms(before, signals.last());
    lemma_count_concat(sent, more, ActionKind::ArmTimer);
    lemma_count_concat(sent, more, ActionKind::RequestSample);
    lemma_count_concat(sent, more, ActionKind::SwitchMode);
}

/// A burst of signals leaves the permissions and the settings as they
/// were.
pub proof fn lemma_burst_keeps(c: ControllerView, signals: Seq<EventView>)
    requires
        c.granted(),
        is_burst(c, signals),
    ensures
        run(c, signals).0.granted(),
        run(c, signals).0.config == c.config,
    decreases signals.len(),
{
    if signals.len() > 0 {
        lemma_burst_keeps(c, signals.drop_last());
        lemma_signal_is_gathered(run(c, signals.drop_last()).0, signals.last());
    }
}

} // verus!
