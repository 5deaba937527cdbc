use verge_config::prfitem::{PrfItem, PrfOption, ProfileExtra};
use verge_config::profiles::{IProfiles, ProfileError};

fn blank(uid: Option<&str>, itype: &str, file: Option<&str>) -> PrfItem {
    PrfItem {
        uid: uid.map(|s| s.to_string()),
        itype: Some(itype.to_string()),
        name: uid.map(|s| format!("name-{s}")),
        file: file.map(|s| s.to_string()),
        desc: None,
        url: None,
        selected: None,
        extra: None,
        updated: None,
        option: None,
        home: None,
        file_data: None,
    }
}

fn uids(p: &IProfiles) -> Vec<String> {
    p.items.as_ref().unwrap().iter().map(|i| i.uid.clone().unwrap()).collect()
}

fn three() -> IProfiles {
    IProfiles {
        current: Some("R1".to_string()),
        items: Some(vec![
            blank(Some("R1"), "remote", Some("R1.yaml")),
            blank(Some("L2"), "local", Some("L2.yaml")),
            blank(Some("R3"), "remote", Some("R3.yaml")),
        ]),
    }
}

#[test]
fn append_then_find() {
    let mut p = IProfiles::new_empty();
    let mut item = blank(Some("Rnew"), "remote", Some("Rnew.yaml"));
    assert!(matches!(p.append_item(&mut item), Ok(None)));
    assert_eq!(p.current, Some("Rnew".to_string()));
    let found = p.get_item("Rnew").ok().unwrap();
    assert_eq!(found.file, Some("Rnew.yaml".to_string()));
    let mut ext = blank(Some("mext"), "merge", Some("mext.yaml"));
    assert!(p.append_item(&mut ext).is_ok());
    assert_eq!(p.current, Some("Rnew".to_string()));
    assert_eq!(uids(&p), vec!["Rnew", "mext"]);
}

#[test]
fn append_extension_does_not_activate() {
    let mut p = IProfiles::new_empty();
    assert!(p.append_item(&mut blank(Some("mx"), "merge", None)).is_ok());
    assert_eq!(p.current, None);
}

#[test]
fn append_without_uid_is_refused() {
    let mut p = three();
    assert!(matches!(p.append_item(&mut blank(None, "remote", None)), Err(ProfileError::UidMissing)));
    assert_eq!(uids(&p), vec!["R1", "L2", "R3"]);
}

#[test]
fn append_with_contents_but_no_file_is_refused() {
    let mut p = three();
    let mut it = blank(Some("R7"), "remote", None);
    it.file_data = Some("proxies: []".to_string());
    assert!(matches!(p.append_item(&mut it), Err(ProfileError::FileMissing)));
    assert!(it.file_data.is_none());
    assert_eq!(uids(&p), vec!["R1", "L2", "R3"]);
}

#[test]
fn append_takes_file_contents() {
    let mut p = IProfiles::new_empty();
    let mut it = blank(Some("R6"), "remote", Some("R6.yaml"));
    it.file_data = Some("rules: []".to_string());
    let w = p.append_item(&mut it).ok().unwrap().unwrap();
    assert_eq!(w.file, "R6.yaml");
    assert_eq!(w.data, "rules: []");
    assert!(it.file_data.is_none());
    assert!(p.get_item("R6").ok().unwrap().file_data.is_none());
    assert_eq!(p.current, Some("R6".to_string()));
}

#[test]
fn prepare_takes_file_contents() {
    let mut it = blank(Some("R9"), "remote", Some("R9.yaml"));
    it.file_data = Some("proxies: []".to_string());
    let w = IProfiles::prepare_item_file(&mut it).ok().unwrap().unwrap();
    assert_eq!(w.file, "R9.yaml");
    assert_eq!(w.data, "proxies: []");
    assert!(it.file_data.is_none());
    let mut nofile = blank(Some("R8"), "remote", None);
    nofile.file_data = Some("x".to_string());
    assert!(matches!(IProfiles::prepare_item_file(&mut nofile), Err(ProfileError::FileMissing)));
    let mut nouid = blank(None, "remote", None);
    assert!(matches!(IProfiles::prepare_item_file(&mut nouid), Err(ProfileError::UidMissing)));
}

#[test]
fn reorder_moves_item() {
    let mut p = three();
    assert!(p.reorder(&"R3".to_string(), &"R1".to_string()));
    assert_eq!(uids(&p), vec!["R3", "R1", "L2"]);
    assert!(p.reorder(&"R3".to_string(), &"L2".to_string()));
    assert_eq!(uids(&p), vec!["R1", "L2", "R3"]);
    assert!(p.reorder(&"L2".to_string(), &"L2".to_string()));
    assert_eq!(uids(&p), vec!["R1", "L2", "R3"]);
}

#[test]
fn reorder_unknown_uid_keeps_list() {
    let mut p = three();
    assert!(!p.reorder(&"nope".to_string(), &"R1".to_string()));
    assert!(!p.reorder(&"R1".to_string(), &"nope".to_string()));
    assert_eq!(uids(&p), vec!["R1", "L2", "R3"]);
    assert_eq!(p.current, Some("R1".to_string()));
}

#[test]
fn patch_then_get_reads_back() {
    let mut p = three();
    let mut patch = blank(None, "", None);
    patch.itype = None;
    patch.name = Some("Renamed".to_string());
    patch.updated = Some(99);
    patch.extra = Some(ProfileExtra { upload: Some(1), download: Some(2), total: Some(3), expire: None });
    assert!(p.patch_item(&"L2".to_string(), &patch).is_ok());
    let it = p.get_item("L2").ok().unwrap();
    assert_eq!(it.name, Some("Renamed".to_string()));
    assert_eq!(it.updated, Some(99));
    assert_eq!(it.file, Some("L2.yaml".to_string()));
    assert_eq!(it.itype, Some("local".to_string()));
    assert_eq!(it.extra.unwrap().total, Some(3));
    assert_eq!(uids(&p), vec!["R1", "L2", "R3"]);
    assert!(matches!(p.patch_item(&"zz".to_string(), &patch), Err(ProfileError::PatchTargetNotFound(u)) if u == "zz"));
}

#[test]
fn update_writes_fresh_contents() {
    let mut p = three();
    let mut fresh = blank(None, "remote", None);
    fresh.updated = Some(1234);
    fresh.home = Some("https://home".to_string());
    fresh.file_data = Some("rules: []".to_string());
    let w = p.update_item(&"R3".to_string(), &mut fresh).ok().unwrap().unwrap();
    assert_eq!(w.file, "R3.yaml");
    assert_eq!(w.data, "rules: []");
    assert!(fresh.file_data.is_none());
    let it = p.get_item("R3").ok().unwrap();
    assert_eq!(it.updated, Some(1234));
    assert_eq!(it.home, None);
    assert_eq!(it.name, Some("name-R3".to_string()));
}

#[test]
fn update_names_missing_file_after_uid() {
    let mut p = IProfiles { current: None, items: Some(vec![blank(Some("R5"), "remote", None)]) };
    let mut fresh = blank(None, "remote", None);
    fresh.file_data = Some("a: 1".to_string());
    let w = p.update_item(&"R5".to_string(), &mut fresh).ok().unwrap().unwrap();
    assert_eq!(w.file, "R5.yaml");
    assert_eq!(p.get_item("R5").ok().unwrap().file, Some("R5.yaml".to_string()));
}

#[test]
fn update_keeps_options() {
    let mut main = blank(Some("R1"), "remote", Some("R1.yaml"));
    main.option = Some(PrfOption { merge: Some("m1".to_string()), script: None, rules: None, proxies: None, groups: None });
    let mut p = IProfiles { current: None, items: Some(vec![main]) };
    let mut fresh = blank(None, "remote", None);
    fresh.option = Some(PrfOption { merge: None, script: Some("s1".to_string()), rules: None, proxies: None, groups: None });
    assert!(matches!(p.update_item(&"R1".to_string(), &mut fresh), Ok(None)));
    let o = p.get_item("R1").ok().unwrap().option.as_ref().unwrap();
    assert_eq!(o.merge, Some("m1".to_string()));
    assert_eq!(o.script, None);
}

#[test]
fn delete_takes_extensions_and_picks_new_current() {
    let mut main = blank(Some("R1"), "remote", Some("R1.yaml"));
    main.option = Some(PrfOption {
        merge: Some("m1".to_string()),
        script: Some("s1".to_string()),
        rules: None,
        proxies: None,
        groups: None,
    });
    let mut p = IProfiles {
        current: Some("R1".to_string()),
        items: Some(vec![
            main,
            blank(Some("m1"), "merge", Some("m1.yaml")),
            blank(Some("s1"), "script", Some("s1.js")),
            blank(Some("L2"), "local", Some("L2.yaml")),
        ]),
    };
    let (current_deleted, files) = p.delete_item(&"R1".to_string()).ok().unwrap();
    assert!(current_deleted);
    assert_eq!(files, vec!["R1.yaml", "m1.yaml", "s1.js"]);
    assert_eq!(uids(&p), vec!["L2"]);
    assert_eq!(p.current, Some("L2".to_string()));
    assert!(p.get_item("R1").is_err());
}

#[test]
fn delete_other_keeps_current() {
    let mut p = three();
    let (current_deleted, files) = p.delete_item(&"L2".to_string()).ok().unwrap();
    assert!(!current_deleted);
    assert_eq!(files, vec!["L2.yaml"]);
    assert_eq!(p.current, Some("R1".to_string()));
    assert!(matches!(p.delete_item(&"L2".to_string()), Err(ProfileError::ItemNotFound(_))));
}

#[test]
fn current_file_lookup() {
    let p = three();
    assert_eq!(p.current_profile_file().ok().unwrap(), Some("R1.yaml".to_string()));
    let none = IProfiles::new_empty();
    assert_eq!(none.current_profile_file().ok().unwrap(), None);
    let dangling = IProfiles { current: Some("X".to_string()), items: Some(vec![]) };
    assert!(matches!(dangling.current_profile_file(), Err(ProfileError::CurrentNotFound(u)) if u == "X"));
    let nofile = IProfiles { current: Some("R1".to_string()), items: Some(vec![blank(Some("R1"), "remote", None)]) };
    assert!(matches!(nofile.current_profile_file(), Err(ProfileError::FileFieldMissing)));
}

#[test]
fn preview_lists_named_items() {
    let mut p = three();
    p.items.as_mut().unwrap().push(blank(None, "merge", None));
    let prev = p.profiles_preview().unwrap();
    assert_eq!(prev.len(), 3);
    assert_eq!(prev[0].uid, "R1");
    assert_eq!(prev[0].name, "name-R1");
    assert!(prev[0].is_current);
    assert!(!prev[1].is_current);
    assert!(IProfiles::new_empty().profiles_preview().is_none());
}

#[test]
fn select_current_via_patch() {
    let mut p = three();
    p.patch_config(&IProfiles { current: Some("R3".to_string()), items: None });
    assert_eq!(p.get_current(), Some(&"R3".to_string()));
    p.patch_config(&IProfiles { current: Some("missing".to_string()), items: None });
    assert_eq!(p.get_current(), Some(&"R3".to_string()));
    assert!(p.is_current_profile_index(&"R3".to_string()));
    assert_eq!(p.get_name_by_uid(&"L2".to_string()), Some(&"name-L2".to_string()));
    assert_eq!(p.get_name_by_uid(&"nope".to_string()), None);
}

#[test]
fn profile_file_names() {
    assert!(IProfiles::is_profile_file("RabC123.yaml"));
    assert!(IProfiles::is_profile_file("Lx.yaml"));
    assert!(IProfiles::is_profile_file("mfoo.yaml"));
    assert!(IProfiles::is_profile_file("sbar.js"));
    assert!(IProfiles::is_profile_file("gz9.yaml"));
    assert!(!IProfiles::is_profile_file("Merge.yaml"));
    assert!(!IProfiles::is_profile_file("R.yaml"));
    assert!(!IProfiles::is_profile_file("notes.txt"));
    assert!(!IProfiles::is_profile_file("sbar.yaml"));
    assert!(!IProfiles::is_profile_file("Ré.yaml"));
    assert!(!IProfiles::is_profile_file("Rab.yaml\n"));
    assert!(!IProfiles::is_profile_file("xRab.yaml"));
}

#[test]
fn orphans_are_unused_profile_files() {
    let mut main = blank(Some("Rmain"), "remote", Some("Rmain.yaml"));
    main.option = Some(PrfOption { merge: Some("mA".to_string()), script: None, rules: None, proxies: None, groups: None });
    let p = IProfiles {
        current: Some("Rmain".to_string()),
        items: Some(vec![main, blank(Some("mA"), "merge", Some("mA.yaml"))]),
    };
    let files: Vec<String> = ["Rmain.yaml", "mA.yaml", "Rold.yaml", "Merge.yaml", "Script.js", "readme.md", "sgone.js"]
        .iter()
        .map(|s| s.to_string())
        .collect();
    assert_eq!(p.orphaned_files(&files), vec!["Rold.yaml", "sgone.js"]);
    let active = p.get_all_active_files();
    assert!(active.contains(&"Rmain.yaml".to_string()));
    assert!(active.contains(&"mA.yaml".to_string()));
    let protected = p.get_protected_global_files();
    assert_eq!(protected, vec!["Merge.yaml", "Script.js"]);
}

#[test]
fn missing_uids_are_filled() {
    let mut p = IProfiles {
        current: None,
        items: Some(vec![blank(None, "merge", None), blank(Some("R1"), "remote", None)]),
    };
    assert!(p.assign_missing_uids());
    let items = p.items.as_ref().unwrap();
    let u = items[0].uid.clone().unwrap();
    assert_eq!(u.len(), 12);
    assert!(u.starts_with('d'));
    assert_eq!(items[1].uid, Some("R1".to_string()));
}

#[test]
fn error_messages() {
    assert_eq!(ProfileError::UidMissing.message(), "the uid should not be null");
    assert_eq!(ProfileError::FileMissing.message(), "the file should not be null");
    assert_eq!(
        ProfileError::ItemNotFound("x".to_string()).message(),
        "failed to get the profile item \"uid:x\""
    );
    assert_eq!(
        ProfileError::PatchTargetNotFound("z".to_string()).message(),
        "failed to find the profile item \"uid:z\""
    );
    assert_eq!(
        ProfileError::CurrentNotFound("y".to_string()).message(),
        "failed to find the current profile \"uid:y\""
    );
    assert_eq!(ProfileError::FileFieldMissing.message(), "failed to get the file field");
}

#[test]
fn delete_skips_unset_links() {
    let mut main = blank(Some("R1"), "remote", Some("R1.yaml"));
    main.option = Some(PrfOption { merge: Some("m1".to_string()), script: None, rules: None, proxies: None, groups: None });
    let mut no_uid = blank(None, "merge", Some("loose.yaml"));
    no_uid.name = Some("loose".to_string());
    let mut p = IProfiles {
        current: Some("L2".to_string()),
        items: Some(vec![no_uid, main, blank(Some("m1"), "merge", Some("m1.yaml")), blank(Some("L2"), "local", Some("L2.yaml"))]),
    };
    let (current_deleted, files) = p.delete_item(&"R1".to_string()).ok().unwrap();
    assert!(!current_deleted);
    assert_eq!(files, vec!["R1.yaml", "m1.yaml"]);
    let items = p.items.as_ref().unwrap();
    assert_eq!(items.len(), 2);
    assert_eq!(items[0].name, Some("loose".to_string()));
    assert_eq!(items[1].uid, Some("L2".to_string()));
    assert_eq!(p.current, Some("L2".to_string()));
}

#[test]
fn delete_without_current_keeps_none() {
    let mut p = three();
    p.current = None;
    let (current_deleted, files) = p.delete_item(&"L2".to_string()).ok().unwrap();
    assert!(!current_deleted);
    assert_eq!(files, vec!["L2.yaml"]);
    assert_eq!(p.current, None);
}

#[test]
fn assign_uids_when_none_missing_changes_nothing() {
    let mut p = three();
    assert!(p.assign_missing_uids());
    assert_eq!(uids(&p), vec!["R1", "L2", "R3"]);
    let mut empty = IProfiles::new_empty();
    assert!(empty.assign_missing_uids());
    assert_eq!(empty.items.as_ref().map(|v| v.len()), Some(0));
}
