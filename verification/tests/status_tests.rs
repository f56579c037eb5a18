use dots::status::{
    get_status, handle_windows_symlink_error, is_dir, is_file, is_symlink, path_exists, EntryKind,
    FilesystemStatus, Metadata, Probe,
};

fn s(text: &str) -> String {
    text.to_string()
}

fn found(kind: EntryKind) -> Metadata {
    Ok(Some(kind))
}

#[test]
fn probes_read_the_metadata() {
    let missing: Metadata = Ok(None);
    let failed: Metadata = Err(s("denied"));
    assert!(path_exists(&found(EntryKind::File)));
    assert!(path_exists(&found(EntryKind::Other)));
    assert!(!path_exists(&missing));
    assert!(!path_exists(&failed));
    assert!(is_symlink(&found(EntryKind::Symlink)));
    assert!(!is_symlink(&found(EntryKind::File)));
    assert!(!is_symlink(&missing));
    assert!(!is_symlink(&failed));
    assert!(is_dir(&found(EntryKind::Directory)));
    assert!(!is_dir(&found(EntryKind::Symlink)));
    assert!(!is_dir(&failed));
    assert!(is_file(&found(EntryKind::File)));
    assert!(!is_file(&found(EntryKind::Directory)));
    assert!(!is_file(&missing));
}

#[test]
fn status_of_plain_entries() {
    let probe = |meta: Metadata| Probe { meta, link: None, link_meta: None };
    assert_eq!(get_status("/d", &probe(Ok(None))), FilesystemStatus::NotFound);
    assert_eq!(get_status("/d", &probe(found(EntryKind::File))), FilesystemStatus::File);
    assert_eq!(get_status("/d", &probe(found(EntryKind::Directory))), FilesystemStatus::Directory);
    assert_eq!(get_status("/d", &probe(found(EntryKind::Other))), FilesystemStatus::Other);
    assert_eq!(
        get_status("/d", &probe(Err(s("permission denied")))),
        FilesystemStatus::Error(s("Error checking status for /d: permission denied"))
    );
}

#[test]
fn status_of_symlinks() {
    let live = Probe {
        meta: found(EntryKind::Symlink),
        link: Some(Ok(s("/s"))),
        link_meta: Some(found(EntryKind::File)),
    };
    assert_eq!(
        get_status("/d", &live),
        FilesystemStatus::Symlink { points_to: Some(s("/s")), dangling: false }
    );
    let gone = Probe {
        meta: found(EntryKind::Symlink),
        link: Some(Ok(s("/s"))),
        link_meta: Some(Ok(None)),
    };
    assert_eq!(
        get_status("/d", &gone),
        FilesystemStatus::Symlink { points_to: Some(s("/s")), dangling: true }
    );
    let unknown = Probe {
        meta: found(EntryKind::Symlink),
        link: Some(Ok(s("/s"))),
        link_meta: Some(Err(s("denied"))),
    };
    assert_eq!(
        get_status("/d", &unknown),
        FilesystemStatus::Symlink { points_to: Some(s("/s")), dangling: true }
    );
    let unread = Probe {
        meta: found(EntryKind::Symlink),
        link: Some(Err(s("denied"))),
        link_meta: None,
    };
    assert_eq!(
        get_status("/d", &unread),
        FilesystemStatus::Symlink { points_to: None, dangling: true }
    );
    let bare = Probe { meta: found(EntryKind::Symlink), link: None, link_meta: None };
    assert_eq!(
        get_status("/d", &bare),
        FilesystemStatus::Symlink { points_to: None, dangling: true }
    );
}

#[test]
fn status_in_a_word() {
    assert_eq!(FilesystemStatus::File.to_text(), "file");
    assert_eq!(FilesystemStatus::Directory.to_text(), "directory");
    assert_eq!(
        FilesystemStatus::Symlink { points_to: None, dangling: true }.to_text(),
        "symlink"
    );
    assert_eq!(FilesystemStatus::Other.to_text(), "other");
    assert_eq!(FilesystemStatus::NotFound.to_text(), "not found");
    assert_eq!(FilesystemStatus::Error(s("x")).to_text(), "error");
}

#[test]
fn status_clone_is_equal() {
    let status = FilesystemStatus::Symlink { points_to: Some(s("/s")), dangling: false };
    assert_eq!(status.clone(), status);
    let status = FilesystemStatus::Error(s("denied"));
    assert_eq!(status.clone(), status);
}

#[test]
fn windows_symlink_error_message() {
    assert_eq!(
        handle_windows_symlink_error("os error 1314", "C:\\dots\\a", "C:\\Users\\u\\a"),
        "Failed to create symlink from C:\\dots\\a to C:\\Users\\u\\a. This often requires administrator privileges or 'Developer Mode' enabled on Windows.: os error 1314"
    );
}
