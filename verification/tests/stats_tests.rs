use dots::stats::{LinkStats, RelinkStats, UnlinkStats};

#[test]
fn new_stats_count_nothing() {
    let l = LinkStats::new(5);
    assert_eq!((l.errors, l.targets, l.symlinks_added), (0, 5, 0));
    assert_eq!((l.symlinks_removed, l.files_removed, l.targets_skipped), (0, 0, 0));
    let u = UnlinkStats::new(7);
    assert_eq!((u.errors, u.targets, u.symlinks_removed), (0, 7, 0));
    assert_eq!((u.files_removed, u.targets_skipped), (0, 0));
    assert_eq!(LinkStats::default(), LinkStats::new(0));
    assert_eq!(UnlinkStats::default(), UnlinkStats::new(0));
}

#[test]
fn relink_stats_add_up_both_passes() {
    let u = UnlinkStats {
        errors: 1,
        targets: 4,
        symlinks_removed: 2,
        files_removed: 1,
        targets_skipped: 0,
    };
    let l = LinkStats {
        errors: 2,
        targets: 4,
        symlinks_added: 3,
        symlinks_removed: 1,
        files_removed: 0,
        targets_skipped: 1,
    };
    let r = RelinkStats::new(u, l);
    assert_eq!(
        r,
        RelinkStats {
            errors: 3,
            targets: 4,
            symlinks_added: 3,
            symlinks_removed: 3,
            files_removed: 1,
            targets_skipped: 1,
        }
    );
}

#[test]
fn unlink_report_of_a_run() {
    let mut u = UnlinkStats::new(12);
    u.symlinks_removed = 9;
    u.files_removed = 1;
    u.targets_skipped = 2;
    assert_eq!(
        u.display(false),
        vec![
            "Successfully unlinked 10/12 potential entries.",
            "Symlinks removed: 9",
            "Files removed:    1",
        ]
    );
    assert_eq!(
        u.display(true),
        vec![
            "Would have successfully unlinked 10/12 potential entries.",
            "Symlinks removed: 9",
            "Files removed:    1",
        ]
    );
}

#[test]
fn unlink_report_of_an_idle_run() {
    let mut u = UnlinkStats::new(3);
    u.targets_skipped = 3;
    assert_eq!(u.display(false), vec!["No entries were unlinked (skipped 3)."]);
    assert_eq!(u.display(true), vec!["No entries would have been unlinked (skipped 3)."]);
}

#[test]
fn link_report_of_a_run() {
    let mut l = LinkStats::new(20);
    l.symlinks_added = 15;
    l.symlinks_removed = 2;
    l.files_removed = 1;
    assert_eq!(
        l.display(false),
        vec![
            "Successfully linked 15/20 potential entries.",
            "Symlinks added:   15",
            "Symlinks removed: 2",
            "Files removed:    1",
        ]
    );
    assert_eq!(l.display(true)[0], "Would have successfully linked 15/20 potential entries.");
    let idle = LinkStats::new(2);
    assert_eq!(idle.display(false), vec!["No entries were linked (skipped 0)."]);
    assert_eq!(idle.display(true), vec!["No entries would have been linked (skipped 0)."]);
}
