use autolock::config::{is_interval_key, parse_flag, Config};
use autolock::names::NameSet;

fn has(names: &NameSet, name: &str) -> bool {
    names.contains(&name.to_string())
}

#[test]
fn default_settings() {
    let c = Config::default();
    assert_eq!(c.triggers.names, vec!["vim", "nvim"]);
    assert!(c.watch_triggers.names.is_empty());
    assert_eq!(c.reaction_millis, 300);
    assert_eq!(c.watch_millis, 1000);
    assert!(!c.print_to_log);
    assert!(!c.debounce_focus);
}

#[test]
fn flag_is_on_for_four_spellings() {
    for on in ["true", "t", "y", "1", " true ", "\ty\n"] {
        assert!(parse_flag(on), "{:?}", on);
    }
    for off in ["", "false", "0", "yes", "True", "T", "Y", "on", "tr ue", "11"] {
        assert!(!parse_flag(off), "{:?}", off);
    }
}

#[test]
fn two_keys_name_an_interval() {
    assert!(is_interval_key("reaction_seconds"));
    assert!(is_interval_key("watch_interval"));
    for key in ["triggers", "watch_triggers", "print_to_log", "", "reaction_seconds ", "Watch_Interval"] {
        assert!(!is_interval_key(key), "{:?}", key);
    }
}

#[test]
fn set_reads_each_text_key() {
    let mut c = Config::default();
    c.set("triggers", "hx | emacs");
    assert_eq!(c.triggers.names, vec!["hx", "emacs"]);
    assert!(has(&c.triggers, "emacs"));
    assert!(!has(&c.triggers, "vim"));
    c.set("watch_triggers", "git");
    assert_eq!(c.watch_triggers.names, vec!["git"]);
    c.set("print_to_log", "y");
    assert!(c.print_to_log);
    c.set("print_to_log", "no");
    assert!(!c.print_to_log);
    assert_eq!(c.reaction_millis, 300);
    assert_eq!(c.watch_millis, 1000);
}

#[test]
fn set_keeps_the_names_as_they_are_listed() {
    let mut c = Config::default();
    c.set("triggers", " /usr/bin/vim |git commit");
    assert_eq!(c.triggers.names, vec!["/usr/bin/vim", "git commit"]);
}

#[test]
fn set_ignores_an_unknown_key() {
    let mut c = Config::default();
    c.set("colour", "blue");
    c.set("Triggers", "hx");
    assert_eq!(c.triggers.names, vec!["vim", "nvim"]);
    assert!(c.watch_triggers.names.is_empty());
    assert!(!c.print_to_log);
}

#[test]
fn set_leaves_the_intervals_to_set_interval() {
    let mut c = Config::default();
    c.set("reaction_seconds", "5");
    c.set("watch_interval", "5");
    assert_eq!(c.reaction_millis, 300);
    assert_eq!(c.watch_millis, 1000);
}

#[test]
fn set_interval_reads_each_interval_key() {
    let mut c = Config::default();
    c.set_interval("reaction_seconds", 1_000_000);
    assert_eq!(c.reaction_millis, 1_000_000);
    assert_eq!(c.watch_millis, 1000);
    c.set_interval("watch_interval", 0);
    assert_eq!(c.watch_millis, 0);
    assert_eq!(c.reaction_millis, 1_000_000);
    c.set_interval("reaction_seconds", u64::MAX);
    assert_eq!(c.reaction_millis, u64::MAX);
    assert_eq!(c.triggers.names, vec!["vim", "nvim"]);
    assert!(!c.print_to_log);
}

#[test]
fn set_interval_ignores_the_other_keys() {
    let mut c = Config::default();
    c.set_interval("triggers", 5);
    c.set_interval("print_to_log", 1);
    c.set_interval("reaction", 5);
    assert_eq!(c.reaction_millis, 300);
    assert_eq!(c.watch_millis, 1000);
    assert_eq!(c.triggers.names, vec!["vim", "nvim"]);
    assert!(!c.print_to_log);
}
