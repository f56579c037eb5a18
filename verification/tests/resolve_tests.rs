use dots::knowledge::{Entry, Knowledge, Listing, Query};
use dots::resolve::{
    classify_segment, resolve_path, ConfigError, Outcome, SegmentKind, _resolve_path,
};
use dots::strmap::StringMap;

fn s(text: &str) -> String {
    text.to_string()
}

fn dir(name: &str) -> Entry {
    Entry { name: s(name), is_dir: true }
}

fn file(name: &str) -> Entry {
    Entry { name: s(name), is_dir: false }
}

fn env(pairs: &[(&str, &str)]) -> StringMap {
    let mut m = StringMap::new();
    for (k, v) in pairs {
        m.insert(s(k), s(v));
    }
    m
}

fn paths(outcome: Outcome<Vec<(String, StringMap)>>) -> Vec<String> {
    match outcome {
        Outcome::Ready(found) => found.into_iter().map(|f| f.0).collect(),
        other => panic!("{:?}", other),
    }
}

#[test]
fn segments_are_told_apart() {
    assert_eq!(classify_segment("*"), SegmentKind::Wildcard);
    assert_eq!(classify_segment("<name>"), SegmentKind::Variable);
    assert_eq!(classify_segment("<>"), SegmentKind::Variable);
    assert_eq!(classify_segment("$HOME"), SegmentKind::Shell);
    assert_eq!(classify_segment("~"), SegmentKind::Shell);
    assert_eq!(classify_segment("~user"), SegmentKind::Shell);
    assert_eq!(classify_segment(".config"), SegmentKind::Literal);
    assert_eq!(classify_segment("**"), SegmentKind::Literal);
    assert_eq!(classify_segment("<"), SegmentKind::Literal);
    assert_eq!(classify_segment("<name"), SegmentKind::Literal);
    assert_eq!(classify_segment("name>"), SegmentKind::Literal);
    assert_eq!(classify_segment(""), SegmentKind::Literal);
}

#[test]
fn literal_template_resolves_to_itself_below_the_base() {
    let known = Knowledge::new();
    let e = env(&[("name", "work")]);
    let r = resolve_path(&known, "/dots", "home/.config/app", &e);
    assert_eq!(r, Outcome::Ready(vec![(s("/dots/home/.config/app"), e.clone())]));
    assert_eq!(paths(resolve_path(&known, "/dots", "", &e)), vec!["/dots"]);
    assert_eq!(paths(resolve_path(&known, "/dots", "/etc/hosts", &e)), vec!["/etc/hosts"]);
}

#[test]
fn wildcard_needs_the_listing_first() {
    let known = Knowledge::new();
    let r = resolve_path(&known, "/base", "*/x", &StringMap::new());
    assert_eq!(r, Outcome::Need(Query::ListDir(s("/base"))));
    let r = resolve_path(&known, "/base", "os/*/home", &StringMap::new());
    assert_eq!(r, Outcome::Need(Query::ListDir(s("/base/os"))));
}

#[test]
fn wildcard_expands_to_each_directory_in_listing_order() {
    let mut known = Knowledge::new();
    known.record_listing(s("/base"), Listing::Entries(vec![dir("a"), dir("b")]));
    let r = resolve_path(&known, "/base", "*/x", &StringMap::new());
    assert_eq!(paths(r), vec!["/base/a/x", "/base/b/x"]);
    let mut known = Knowledge::new();
    known.record_listing(s("/base"), Listing::Entries(vec![dir("b"), dir("a")]));
    let r = resolve_path(&known, "/base", "*/x", &StringMap::new());
    assert_eq!(paths(r), vec!["/base/b/x", "/base/a/x"]);
}

#[test]
fn wildcard_leaves_out_what_is_no_directory() {
    let mut known = Knowledge::new();
    known.record_listing(s("/base"), Listing::Entries(vec![dir("a"), file("b")]));
    let r = resolve_path(&known, "/base", "*/x", &StringMap::new());
    assert_eq!(paths(r), vec!["/base/a/x"]);
    let mut known = Knowledge::new();
    known.record_listing(s("/base"), Listing::Entries(vec![file("a"), file("b")]));
    let none: Vec<String> = Vec::new();
    assert_eq!(paths(resolve_path(&known, "/base", "*/x", &StringMap::new())), none);
}

#[test]
fn wildcard_over_an_empty_or_absent_directory_finds_nothing() {
    let none: Vec<String> = Vec::new();
    let mut known = Knowledge::new();
    known.record_listing(s("/base"), Listing::Entries(Vec::new()));
    assert_eq!(paths(resolve_path(&known, "/base", "*/x", &StringMap::new())), none);
    let mut known = Knowledge::new();
    known.record_listing(s("/base"), Listing::Absent);
    assert_eq!(paths(resolve_path(&known, "/base", "*/x", &StringMap::new())), none);
}

#[test]
fn listing_error_names_the_path() {
    let mut known = Knowledge::new();
    known.record_listing(s("/base"), Listing::Entries(vec![dir("a"), dir("b")]));
    known.record_listing(s("/base/a"), Listing::Entries(vec![dir("k")]));
    known.record_listing(s("/base/b"), Listing::Failed(s("permission denied")));
    let r = resolve_path(&known, "/base", "*/*", &StringMap::new());
    assert_eq!(
        r,
        Outcome::Failed(ConfigError::Listing { path: s("/base/b"), message: s("permission denied") })
    );
}

#[test]
fn nested_wildcards_ask_for_one_listing_at_a_time() {
    let mut known = Knowledge::new();
    let e = StringMap::new();
    assert_eq!(resolve_path(&known, "/b", "*/*", &e), Outcome::Need(Query::ListDir(s("/b"))));
    known.record_listing(s("/b"), Listing::Entries(vec![dir("x"), dir("y")]));
    assert_eq!(resolve_path(&known, "/b", "*/*", &e), Outcome::Need(Query::ListDir(s("/b/x"))));
    known.record_listing(s("/b/x"), Listing::Entries(vec![dir("1")]));
    assert_eq!(resolve_path(&known, "/b", "*/*", &e), Outcome::Need(Query::ListDir(s("/b/y"))));
    known.record_listing(s("/b/y"), Listing::Entries(vec![file("f"), dir("2"), dir("3")]));
    assert_eq!(paths(resolve_path(&known, "/b", "*/*", &e)), vec!["/b/x/1", "/b/y/2", "/b/y/3"]);
}

#[test]
fn a_later_listing_replaces_an_earlier_one() {
    let mut known = Knowledge::new();
    known.record_listing(s("/b"), Listing::Entries(vec![dir("x")]));
    known.record_listing(s("/b"), Listing::Entries(vec![dir("y")]));
    assert_eq!(known.listing("/b"), Some(&Listing::Entries(vec![dir("y")])));
    assert_eq!(known.listing("/c"), None);
    assert_eq!(paths(resolve_path(&known, "/b", "*", &StringMap::new())), vec!["/b/y"]);
}

#[test]
fn unbound_variable_stands_for_itself() {
    let known = Knowledge::new();
    let r = resolve_path(&known, "/dots", "os/<name>/home", &StringMap::new());
    assert_eq!(paths(r), vec!["/dots/os/<name>/home"]);
}

#[test]
fn bound_variable_is_substituted() {
    let known = Knowledge::new();
    let e = env(&[("name", "arch")]);
    let r = resolve_path(&known, "/dots", "os/<name>/home", &e);
    assert_eq!(r, Outcome::Ready(vec![(s("/dots/os/arch/home"), e.clone())]));
}

#[test]
fn variable_bound_to_a_wildcard_binds_each_directory_name() {
    let mut known = Knowledge::new();
    known.record_listing(s("/dots/crazy"), Listing::Entries(vec![dir("test"), file("README"), dir("work")]));
    let e = env(&[("other", "1"), ("dir", "*")]);
    let r = resolve_path(&known, "/dots", "crazy/<dir>/ball/home", &e);
    assert_eq!(
        r,
        Outcome::Ready(vec![
            (s("/dots/crazy/test/ball/home"), env(&[("other", "1"), ("dir", "test")])),
            (s("/dots/crazy/work/ball/home"), env(&[("other", "1"), ("dir", "work")])),
        ])
    );
    assert_eq!(e.get("dir"), Some(&s("*")));
}

#[test]
fn sibling_branches_do_not_see_each_others_bindings() {
    let mut known = Knowledge::new();
    known.record_listing(s("/d"), Listing::Entries(vec![dir("a"), dir("b")]));
    let e = env(&[("x", "*")]);
    let r = resolve_path(&known, "/d", "<x>/<x>", &e);
    assert_eq!(
        r,
        Outcome::Ready(vec![
            (s("/d/a/a"), env(&[("x", "a")])),
            (s("/d/b/b"), env(&[("x", "b")])),
        ])
    );
}

#[test]
fn shell_segment_asks_for_the_expansion() {
    let known = Knowledge::new();
    let e = env(&[("name", "arch")]);
    let r = resolve_path(&known, "/dots", "~/.config/app", &e);
    assert_eq!(r, Outcome::Need(Query::Shell { command: s("echo ~"), env: e.clone() }));
    let r = resolve_path(&known, "/dots", "a/$XDG_DATA_HOME", &e);
    assert_eq!(r, Outcome::Need(Query::Shell { command: s("echo $XDG_DATA_HOME"), env: e }));
}

#[test]
fn shell_output_is_trimmed_and_joined() {
    let mut known = Knowledge::new();
    let e = StringMap::new();
    known.record_output(s("echo ~"), e.clone(), Ok(s("/home/u\n")));
    let r = resolve_path(&known, "/dots", "~/.config/app", &e);
    assert_eq!(paths(r), vec!["/home/u/.config/app"]);
    known.record_output(s("echo $SUB"), e.clone(), Ok(s(" sub/dir \n")));
    assert_eq!(paths(resolve_path(&known, "/dots", "a/$SUB/b", &e)), vec!["/dots/a/sub/dir/b"]);
}

#[test]
fn shell_failure_falls_back_to_the_literal() {
    let mut known = Knowledge::new();
    let e = StringMap::new();
    known.record_output(s("echo $UNSET"), e.clone(), Err(s("no shell")));
    let r = resolve_path(&known, "/dots", "a/$UNSET/b", &e);
    assert_eq!(paths(r), vec!["/dots/a/$UNSET/b"]);
}

#[test]
fn shell_output_is_known_per_environment() {
    let mut known = Knowledge::new();
    known.record_output(s("echo $X"), env(&[("a", "1"), ("b", "2")]), Ok(s("one")));
    let same = env(&[("b", "2"), ("a", "1")]);
    assert_eq!(known.output("echo $X", &same), Some(&Ok(s("one"))));
    assert_eq!(paths(resolve_path(&known, "/d", "$X", &same)), vec!["/d/one"]);
    let other = env(&[("a", "1")]);
    assert_eq!(known.output("echo $X", &other), None);
    assert_eq!(
        resolve_path(&known, "/d", "$X", &other),
        Outcome::Need(Query::Shell { command: s("echo $X"), env: other })
    );
    known.record_output(s("echo $X"), same.clone(), Ok(s("two")));
    assert_eq!(known.output("echo $X", &same), Some(&Ok(s("two"))));
}

#[test]
fn resolving_from_a_position_in_the_middle() {
    let known = Knowledge::new();
    let parts = vec![s("skipped"), s("b"), s("c")];
    let r = _resolve_path(&known, "/base", "a", &parts, 1, &StringMap::new());
    assert_eq!(paths(r), vec!["/base/a/b/c"]);
    let r = _resolve_path(&known, "/base", "a", &parts, 3, &StringMap::new());
    assert_eq!(paths(r), vec!["/base/a"]);
    let r = _resolve_path(&known, "/base", "a", &parts, 9, &StringMap::new());
    assert_eq!(paths(r), vec!["/base/a"]);
}
