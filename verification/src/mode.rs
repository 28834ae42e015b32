//! The policy that decides the input mode from a sampled command.

use crate::names::NameSet;
use crate::sampler::{Command, CommandView};
use vstd::prelude::*;

verus! {

/// An input-interpretation mode of the host. The policy asserts `Normal`
/// and `Locked` only; the other modes belong to the host.
#[derive(Clone, Copy, Debug, PartialEq, Eq, Structural)]
pub enum InputMode {
    Normal,
    Locked,
    Resize,
    Pane,
    Tab,
    Scroll,
    EnterSearch,
    Search,
    RenameTab,
    RenamePane,
    Session,
    Move,
    Prompt,
    Tmux,
}

impl InputMode {
    /// The modes that the policy may leave: `Normal` and `Locked`.
    pub open spec fn in_authority(self) -> bool {
        self == InputMode::Normal || self == InputMode::Locked
    }

    /// Tells whether the policy may leave this mode.
    pub fn is_in_authority(self) -> (r: bool)
        ensures
            r == self.in_authority(),
    {
        self == InputMode::Normal || self == InputMode::Locked
    }
}

/// What the policy concludes from one sample.
#[derive(Clone, Copy, Debug, PartialEq, Eq, Structural)]
pub struct Decision {
    /// The mode that the sample calls for.
    pub target: InputMode,
    /// Whether the host is to be asked to switch to `target`.
    pub apply: bool,
    /// Whether sampling is to go on at the watch interval.
    pub keep_watching: bool,
}

/// Whether the sample is a command that `names` holds: by its text or by
/// its program, each without the directories that lead to the program
/// or, for a name that is listed with them, as the host reports it.
pub open spec fn command_in(sample: Option<CommandView>, names: Set<Seq<char>>) -> bool {
    sample matches Some(c) && (names.contains(c.normalized) || names.contains(c.base_token)
        || names.contains(c.invocation) || names.contains(c.program))
}

/// The decision for a sample under the given trigger and watch sets,
/// with the host in mode `current`.
pub open spec fn decision(
    sample: Option<CommandView>,
    triggers: Set<Seq<char>>,
    watches: Set<Seq<char>>,
    current: InputMode,
) -> Decision {
    let is_trigger = command_in(sample, triggers);
    let is_watch = command_in(sample, watches);
    let target = if is_trigger || is_watch {
        InputMode::Locked
    } else if current == InputMode::Locked {
        InputMode::Normal
    } else {
        current
    };
    Decision { target, apply: target != current && current.in_authority(), keep_watching: is_watch }
}

/// Tells whether the sample is a command that `names` holds.
pub fn is_command_in(sample: &Option<Command>, names: &NameSet) -> (r: bool)
    ensures
        r == command_in(sample.deep_view(), names@),
{
    match sample {
        Some(c) => names.contains(&c.normalized) || names.contains(&c.base_token)
            || names.contains(&c.invocation) || names.contains(&c.program),
        None => false,
    }
}

/// Decides the input mode for a sample.
pub fn decide(
    sample: &Option<Command>,
    triggers: &NameSet,
    watches: &NameSet,
    current: InputMode,
) -> (d: Decision)
    ensures
        d == decision(sample.deep_view(), triggers@, watches@, current),
{
    let is_trigger = is_command_in(sample, triggers);
    let is_watch = is_command_in(sample, watches);
    let target = if is_trigger || is_watch {
        InputMode::Locked
    } else if current == InputMode::Locked {
        InputMode::Normal
    } else {
        current
    };
    Decision { target, apply: target != current && current.is_in_authority(), keep_watching: is_watch }
}

} // verus!
