use dots::run::{
    classify_named, closing, config_file_names, saved_message, trackfile_location, trackfile_path,
    would_save_message, Closing, Target,
};
use dots::status::{EntryKind, Metadata};
use dots::trackfile::Trackfile;

fn s(text: &str) -> String {
    text.to_string()
}

#[test]
fn trackfile_path_is_below_the_cache_directory() {
    assert_eq!(
        trackfile_path(Some("/home/u/.cache")),
        Ok(s("/home/u/.cache/bos/trackfile.toml"))
    );
    assert_eq!(trackfile_path(None), Err(s("Could not determine user cache directory")));
}

#[test]
fn trackfile_location_ends_in_the_file_name() {
    match trackfile_location() {
        Ok(path) => assert!(path.ends_with("bos/trackfile.toml")),
        Err(message) => assert_eq!(message, "Could not determine user cache directory"),
    }
}

#[test]
fn generate_tells_a_url_from_a_path() {
    let dir: Metadata = Ok(Some(EntryKind::Directory));
    let file: Metadata = Ok(Some(EntryKind::File));
    let none: Metadata = Ok(None);
    assert_eq!(
        Trackfile::generate("https://example.net/u/dots.git", "/home/u/.cache/bos", &none),
        Target::Repository {
            url: s("https://example.net/u/dots.git"),
            into: s("/home/u/.cache/bos/repos"),
        }
    );
    assert_eq!(
        Trackfile::generate("/home/u/dots", "/c", &dir),
        Target::Directory(s("/home/u/dots"))
    );
    assert_eq!(
        Trackfile::generate("dots/dots.toml", "/c", &file),
        Target::ConfigFile(s("dots/dots.toml"))
    );
    assert_eq!(Trackfile::generate("nowhere", "/c", &none), Target::Unusable(s("nowhere")));
    let failed: Metadata = Err(s("denied"));
    assert_eq!(Trackfile::generate("nowhere", "/c", &failed), Target::Unusable(s("nowhere")));
}

#[test]
fn classify_named_goes_by_the_answers_given() {
    let dir: Metadata = Ok(Some(EntryKind::Directory));
    assert_eq!(
        classify_named(true, "x", "/c", &dir),
        Target::Repository { url: s("x"), into: s("/c/repos") }
    );
    assert_eq!(classify_named(false, "x", "/c", &dir), Target::Directory(s("x")));
    let link: Metadata = Ok(Some(EntryKind::Symlink));
    assert_eq!(classify_named(false, "x", "/c", &link), Target::Unusable(s("x")));
}

#[test]
fn detect_config_takes_the_first_name_present() {
    assert_eq!(
        config_file_names(),
        vec!["dots.toml", "config.dots", ".dots", "bos.toml", "config.bos", ".bos"]
    );
    let present = vec![false, false, true, true, false, false];
    assert_eq!(Trackfile::detect_config("/dots", &present), Some(s("/dots/.dots")));
    let present = vec![true, true, true, true, true, true];
    assert_eq!(Trackfile::detect_config("/dots", &present), Some(s("/dots/dots.toml")));
    let present = vec![false, false, false, false, false, true, true];
    assert_eq!(Trackfile::detect_config("/dots/", &present), Some(s("/dots/.bos")));
    let present = vec![false; 6];
    assert_eq!(Trackfile::detect_config("/dots", &present), None);
    assert_eq!(Trackfile::detect_config("/dots", &vec![false, true]), Some(s("/dots/config.dots")));
    assert_eq!(Trackfile::detect_config("/dots", &Vec::new()), None);
    let late = vec![false, false, false, false, false, false, true];
    assert_eq!(Trackfile::detect_config("/dots", &late), None);
}

#[test]
fn closing_writes_a_changed_ledger() {
    let mut t = Trackfile::new();
    assert_eq!(closing(&t, false, false), Ok(Closing::Nothing));
    assert_eq!(closing(&t, true, false), Ok(Closing::Nothing));
    t.insert(s("/d"), s("/s"));
    assert_eq!(closing(&t, false, false), Ok(Closing::Write(s("\"/d\" = \"/s\"\n"))));
}

#[test]
fn closing_of_a_dry_run_only_announces() {
    let mut t = Trackfile::new();
    assert_eq!(closing(&t, false, true), Ok(Closing::Nothing));
    assert_eq!(closing(&t, true, true), Ok(Closing::Announce));
    t.insert(s("/d"), s("/s"));
    assert_eq!(closing(&t, false, true), Ok(Closing::Announce));
}

#[test]
fn closing_messages() {
    assert_eq!(saved_message("/c/bos/trackfile.toml"), "Trackfile saved to /c/bos/trackfile.toml");
    assert_eq!(would_save_message(), "DRY RUN: Trackfile would have been saved.");
}
