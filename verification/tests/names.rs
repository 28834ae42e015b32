use autolock::names::NameSet;

fn has(set: &NameSet, name: &str) -> bool {
    set.contains(&name.to_string())
}

#[test]
fn new_set_is_empty() {
    let set = NameSet::new();
    assert!(set.names.is_empty());
    assert!(!has(&set, "vim"));
    assert!(!has(&set, ""));
}

#[test]
fn parse_splits_at_bars_and_trims() {
    let set = NameSet::parse(" vim | nvim|hx ");
    assert_eq!(set.names, vec!["vim", "nvim", "hx"]);
    assert!(has(&set, "vim"));
    assert!(has(&set, "nvim"));
    assert!(has(&set, "hx"));
    assert!(!has(&set, " vim "));
    assert!(!has(&set, "vi"));
    assert!(!has(&set, "VIM"));
}

#[test]
fn parse_keeps_inner_whitespace() {
    let set = NameSet::parse("git commit|vim");
    assert!(has(&set, "git commit"));
    assert!(!has(&set, "git"));
}

#[test]
fn parse_of_empty_text_holds_the_empty_name() {
    let set = NameSet::parse("");
    assert_eq!(set.names, vec![""]);
    assert!(has(&set, ""));
    let gaps = NameSet::parse("a||b");
    assert_eq!(gaps.names, vec!["a", "", "b"]);
}
