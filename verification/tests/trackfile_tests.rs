use dots::trackfile::{Trackfile, TrackfileError};

fn s(text: &str) -> String {
    text.to_string()
}

#[test]
fn new_trackfile_is_empty_and_clean() {
    let t = Trackfile::new();
    assert!(t.is_empty());
    assert_eq!(t.len(), 0);
    assert!(!t.is_dirty());
    let d = Trackfile::default();
    assert!(d.is_empty() && !d.is_dirty());
}

#[test]
fn insert_records_and_marks_dirty() {
    let mut t = Trackfile::new();
    t.insert(s("/home/u/.a"), s("/dots/a"));
    assert!(t.is_dirty());
    assert_eq!(t.len(), 1);
    assert!(t.contains_dest("/home/u/.a"));
    assert!(!t.contains_dest("/home/u/.b"));
    assert_eq!(t.get_source("/home/u/.a"), Some(&s("/dots/a")));
    assert_eq!(t.get_source("/home/u/.b"), None);
    t.insert(s("/home/u/.a"), s("/dots/new"));
    assert_eq!(t.len(), 1);
    assert_eq!(t.get_source("/home/u/.a"), Some(&s("/dots/new")));
}

#[test]
fn remove_marks_dirty_only_when_something_left() {
    let mut t = Trackfile::new();
    t.insert(s("/d"), s("/s"));
    t.saved();
    assert!(!t.is_dirty());
    assert_eq!(t.remove("/other"), None);
    assert!(!t.is_dirty());
    assert_eq!(t.remove("/d"), Some(s("/s")));
    assert!(t.is_dirty());
    assert!(t.is_empty());
}

#[test]
fn iter_keeps_the_order_of_first_recording() {
    let mut t = Trackfile::new();
    t.insert(s("/z"), s("1"));
    t.insert(s("/a"), s("2"));
    t.insert(s("/z"), s("3"));
    assert_eq!(t.iter(), vec![(s("/z"), s("3")), (s("/a"), s("2"))]);
    let copy = t.clone();
    assert_eq!(copy.iter(), t.iter());
    assert_eq!(copy.is_dirty(), t.is_dirty());
    assert_eq!(t.into_iter(), vec![(s("/z"), s("3")), (s("/a"), s("2"))]);
}

#[test]
fn from_entries_binds_in_order() {
    let t = Trackfile::from_entries(vec![
        (s("/a"), s("1")),
        (s("/b"), s("2")),
        (s("/a"), s("3")),
    ]);
    assert!(!t.is_dirty());
    assert_eq!(t.iter(), vec![(s("/a"), s("3")), (s("/b"), s("2"))]);
}

#[test]
fn save_of_a_clean_ledger_writes_nothing() {
    let mut t = Trackfile::new();
    assert_eq!(t.save(), Ok(None));
    t.insert(s("/d"), s("/s"));
    t.saved();
    assert_eq!(t.save(), Ok(None));
}

#[test]
fn save_writes_a_toml_table() {
    let mut t = Trackfile::new();
    t.insert(s("/home/u/.bashrc"), s("/dots/home/.bashrc"));
    let text = t.save().unwrap().unwrap();
    assert_eq!(text, "\"/home/u/.bashrc\" = \"/dots/home/.bashrc\"\n");
    assert!(t.is_dirty());
    t.saved();
    assert!(!t.is_dirty());
    assert_eq!(t.len(), 1);
}

#[test]
fn load_reads_what_save_wrote() {
    let mut t = Trackfile::new();
    t.insert(s("/home/u/.b"), s("/dots/b"));
    t.insert(s("/home/u/.a"), s("/dots/a \"quoted\""));
    let text = t.save().unwrap().unwrap();
    let back = Trackfile::load(&text).unwrap();
    assert!(!back.is_dirty());
    assert_eq!(back.len(), 2);
    assert_eq!(back.get_source("/home/u/.a"), Some(&s("/dots/a \"quoted\"")));
    assert_eq!(back.get_source("/home/u/.b"), Some(&s("/dots/b")));
}

#[test]
fn load_of_blank_text_is_an_empty_ledger() {
    for text in ["", "  \n\t\n"] {
        let t = Trackfile::load(text).unwrap();
        assert!(t.is_empty());
        assert!(!t.is_dirty());
    }
}

#[test]
fn load_reads_a_table_of_strings() {
    let t = Trackfile::load("\"/d\" = \"/s\"\nplain = 'x'\n").unwrap();
    assert_eq!(t.len(), 2);
    assert_eq!(t.get_source("/d"), Some(&s("/s")));
    assert_eq!(t.get_source("plain"), Some(&s("x")));
}

#[test]
fn load_refuses_what_is_no_table_of_strings() {
    for text in ["this is not toml", "a = 1\n", "[section]\nkey = \"v\"\n", "a = \"x\"\na = \"y\"\n"] {
        match Trackfile::load(text) {
            Err(TrackfileError::Parse(message)) => assert!(!message.is_empty()),
            other => panic!("{:?}", other),
        }
    }
}

#[test]
fn error_messages_say_what_was_being_done() {
    assert_eq!(
        TrackfileError::Parse(s("bad")).message(),
        "Failed to parse trackfile: bad"
    );
    assert_eq!(
        TrackfileError::Serialize(s("bad")).message(),
        "Failed to serialize trackfile content: bad"
    );
}
