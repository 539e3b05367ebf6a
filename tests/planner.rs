use live_loader::naming::Decoration;
use live_loader::planner::{first_existing, locate, origin_candidates, search_dirs, Probe, SlotSearch};
use live_loader::registry::{Entry, Registry};

fn dirs() -> Vec<String> {
    vec!["/a".to_string(), "/b".to_string()]
}

#[test]
fn search_dirs_appends_exe_dir() {
    let r = search_dirs(vec!["/x".to_string()], "/bin/app".to_string(), "app", Some("/bin".to_string()));
    assert_eq!(r, vec!["/x".to_string(), "/bin/app".to_string()]);
}

#[test]
fn search_dirs_skips_deps() {
    let r = search_dirs(vec![], "/t/debug/deps".to_string(), "deps", Some("/t/debug".to_string()));
    assert_eq!(r, vec!["/t/debug".to_string()]);
    let r = search_dirs(vec![], "deps".to_string(), "deps", None);
    assert_eq!(r, vec!["deps".to_string()]);
}

#[test]
fn first_existing_picks_first() {
    assert_eq!(first_existing(&vec![false, true, true]), Some(1));
    assert_eq!(first_existing(&vec![false, false]), None);
    assert_eq!(first_existing(&vec![]), None);
}

#[test]
fn origin_candidates_in_order() {
    let deco = Decoration::new("lib", ".so");
    let c = origin_candidates(&deco, &dirs(), "foo");
    assert_eq!(c.len(), 2);
    assert_eq!((c[0].dir.as_str(), c[0].file.as_str()), ("/a", "libfoo.so"));
    assert_eq!((c[1].dir.as_str(), c[1].file.as_str()), ("/b", "libfoo.so"));
}

#[test]
fn cold_load_finds_second_dir() {
    let deco = Decoration::new("lib", ".so");
    let origin = locate(&deco, &dirs(), "foo", &vec![false, true]).unwrap();
    assert_eq!((origin.dir.as_str(), origin.file.as_str()), ("/b", "libfoo.so"));
    let mut slots = SlotSearch::new(origin.dir.clone(), "foo".to_string());
    let load = slots.advance(&deco, Probe::Absent).unwrap();
    assert_eq!((load.dir.as_str(), load.file.as_str()), ("/b", "libfoo_live0.so"));
}

fn add(r: &mut Registry, deco: &Decoration, found: Vec<bool>) {
    let origin = locate(deco, &dirs(), "foo", &found).unwrap();
    let load = SlotSearch::new(origin.dir.clone(), "foo".to_string()).candidate(deco);
    r.insert(Entry { name: "foo".to_string(), origin, load }).unwrap();
}

#[test]
fn earlier_dir_shadows_later() {
    let deco = Decoration::new("lib", ".so");
    let mut r = Registry::new();
    add(&mut r, &deco, vec![true, true]);
    assert_eq!(r.get("foo").unwrap().origin.dir, "/a");
    r.remove("foo").unwrap();
    add(&mut r, &deco, vec![false, true]);
    assert_eq!(r.get("foo").unwrap().origin.dir, "/b");
    assert_eq!(r.get("foo").unwrap().load.file, "libfoo_live0.so");
}

#[test]
fn missing_library_is_not_found() {
    let deco = Decoration::new("lib", ".so");
    let mut r = Registry::new();
    add(&mut r, &deco, vec![false, true]);
    assert!(locate(&deco, &dirs(), "nope", &vec![false, false]).is_none());
    assert_eq!(r.len(), 1);
    assert!(!r.contains("nope"));
    assert!(r.pending_front().is_none());
}

#[test]
fn slot_search_skips_kept_files() {
    let deco = Decoration::new("lib", ".so");
    let mut slots = SlotSearch::new("/b".to_string(), "foo".to_string());
    assert_eq!(slots.candidate(&deco).file, "libfoo_live0.so");
    assert!(slots.advance(&deco, Probe::Kept).is_none());
    assert_eq!(slots.next, 1);
    let load = slots.advance(&deco, Probe::Absent).unwrap();
    assert_eq!(load.file, "libfoo_live1.so");
}

#[test]
fn slot_search_reclaims_deleted_file() {
    let deco = Decoration::new("lib", ".so");
    let mut slots = SlotSearch::new("/b".to_string(), "foo".to_string());
    let load = slots.advance(&deco, Probe::Deleted).unwrap();
    assert_eq!(load.file, "libfoo_live0.so");
    assert_eq!(slots.next, 0);
}
