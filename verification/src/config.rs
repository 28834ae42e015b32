//! The settings of the controller, and how the keys of the host's
//! configuration change them.
//!
//! The host counts intervals in seconds with a fraction; the settings
//! count them in whole milliseconds, and whoever reads the host's number
//! hands it over as such.

use crate::names::{listed_names, NameSet};
use crate::text::{owned, same_text, trim, trimmed};
use vstd::prelude::*;

verus! {

/// The settings, read once when the controller is loaded.
#[derive(Clone, Debug)]
pub struct Config {
    /// Commands that call for the locked mode.
    pub triggers: NameSet,
    /// Commands that call for the locked mode and for repeated sampling
    /// while they run.
    pub watch_triggers: NameSet,
    /// Milliseconds before a query is repeated or a burst of signals is
    /// answered.
    pub reaction_millis: u64,
    /// Milliseconds between the samples of a watched command.
    pub watch_millis: u64,
    /// Whether the embedding program is to log what is detected.
    pub print_to_log: bool,
    /// Whether a change of focus waits for the timer instead of being
    /// sampled at once. No key of the configuration sets it.
    pub debounce_focus: bool,
}

/// A [`Config`] as the contracts speak of it.
pub struct ConfigView {
    pub triggers: Set<Seq<char>>,
    pub watch_triggers: Set<Seq<char>>,
    pub reaction_millis: u64,
    pub watch_millis: u64,
    pub print_to_log: bool,
    pub debounce_focus: bool,
}

impl View for Config {
    type V = ConfigView;

    open spec fn view(&self) -> ConfigView {
        ConfigView {
            triggers: self.triggers@,
            watch_triggers: self.watch_triggers@,
            reaction_millis: self.reaction_millis,
            watch_millis: self.watch_millis,
            print_to_log: self.print_to_log,
            debounce_focus: self.debounce_focus,
        }
    }
}

/// The settings that hold where the configuration names none.
pub open spec fn default_config() -> ConfigView {
    ConfigView {
        triggers: set!["vim"@, "nvim"@],
        watch_triggers: Set::empty(),
        reaction_millis: 300,
        watch_millis: 1000,
        print_to_log: false,
        debounce_focus: false,
    }
}

/// Whether a text switches a flag on.
pub open spec fn flag_value(text: Seq<char>) -> bool {
    let t = trimmed(text);
    t == "true"@ || t == "t"@ || t == "y"@ || t == "1"@
}

/// Whether a key of the configuration names an interval.
pub open spec fn names_interval(key: Seq<char>) -> bool {
    key == "reaction_seconds"@ || key == "watch_interval"@
}

impl ConfigView {
    /// The settings after a key of the configuration is read with its
    /// text. Lists of names are split at `|` and trimmed. A key that
    /// names an interval, or that is not known, changes nothing.
    pub open spec fn with_text(self, key: Seq<char>, value: Seq<char>) -> ConfigView {
        if key == "triggers"@ {
            ConfigView { triggers: listed_names(value), ..self }
        } else if key == "watch_triggers"@ {
            ConfigView { watch_triggers: listed_names(value), ..self }
        } else if key == "print_to_log"@ {
            ConfigView { print_to_log: flag_value(value), ..self }
        } else {
            self
        }
    }

    /// The settings after a key of the configuration is read with its
    /// interval. A key that names no interval changes nothing.
    pub open spec fn with_interval(self, key: Seq<char>, millis: u64) -> ConfigView {
        if key == "reaction_seconds"@ {
            ConfigView { reaction_millis: millis, ..self }
        } else if key == "watch_interval"@ {
            ConfigView { watch_millis: millis, ..self }
        } else {
            self
        }
    }
}

/// Tells whether a text switches a flag on.
pub fn parse_flag(text: &str) -> (on: bool)
    ensures
        on == flag_value(text@),
{
    let t = trim(text);
    same_text(t, "true") || same_text(t, "t") || same_text(t, "y") || same_text(t, "1")
}

/// Tells whether a key of the configuration names an interval: its
/// value is then a number, to be handed to `Config::set_interval`.
pub fn is_interval_key(key: &str) -> (r: bool)
    ensures
        r == names_interval(key@),
{
    same_text(key, "reaction_seconds") || same_text(key, "watch_interval")
}

impl Default for Config {
    fn default() -> (config: Config)
        ensures
            config@ == default_config(),
    {
        let mut names: Vec<String> = Vec::new();
        names.push(owned("vim"));
        names.push(owned("nvim"));
        let triggers = NameSet { names };
        proof {
            assert(triggers.names.deep_view()[0] == "vim"@);
            assert(triggers.names.deep_view()[1] == "nvim"@);
            assert(triggers@ =~= set!["vim"@, "nvim"@]);
        }
        Config {
            triggers,
            watch_triggers: NameSet::new(),
            reaction_millis: 300,
            watch_millis: 1000,
            print_to_log: false,
            debounce_focus: false,
        }
    }
}

impl Config {
    /// Reads one key of the configuration with its text.
    pub fn set(&mut self, key: &str, value: &str)
        ensures
            final(self)@ == old(self)@.with_text(key@, value@),
    {
        if same_text(key, "triggers") {
            self.triggers = NameSet::parse(value);
        } else if same_text(key, "watch_triggers") {
            self.watch_triggers = NameSet::parse(value);
        } else if same_text(key, "print_to_log") {
            self.print_to_log = parse_flag(value);
        }
    }

    /// Reads one key of the configuration with its interval.
    pub fn set_interval(&mut self, key: &str, millis: u64)
        ensures
            final(self)@ == old(self)@.with_interval(key@, millis),
    {
        if same_text(key, "reaction_seconds") {
            self.reaction_millis = millis;
        } else if same_text(key, "watch_interval") {
            self.watch_millis = millis;
        }
    }
}

} // verus!
