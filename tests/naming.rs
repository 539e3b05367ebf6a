use live_loader::naming;
use live_loader::naming::{decimal, Decoration};

fn unix() -> Decoration {
    Decoration::new("lib", ".so")
}

#[test]
fn extract_lib_name() {
    let deco = unix();
    let file_name = format!("{}gl32{}", "lib", ".so");
    assert_eq!(naming::extract_lib_name(&deco, &file_name).unwrap(), "gl32");

    let file_name = format!("{}gl32{}a", "lib", ".so");
    assert!(naming::extract_lib_name(&deco, &file_name).is_none());
}

#[test]
fn extract_needs_a_non_empty_name() {
    let deco = unix();
    assert!(naming::extract_lib_name(&deco, "lib.so").is_none());
    assert!(naming::extract_lib_name(&deco, "foo.so").is_none());
    assert_eq!(naming::extract_lib_name(&deco, "libx.so").unwrap(), "x");
}

#[test]
fn extract_on_windows_decoration() {
    let deco = Decoration::new("", ".dll");
    assert_eq!(naming::extract_lib_name(&deco, "gl32.dll").unwrap(), "gl32");
    assert!(naming::extract_lib_name(&deco, ".dll").is_none());
}

#[test]
fn decimal_writes_numbers() {
    assert_eq!(decimal(0), "0");
    assert_eq!(decimal(7), "7");
    assert_eq!(decimal(10), "10");
    assert_eq!(decimal(1203), "1203");
    assert_eq!(decimal(u64::MAX), "18446744073709551615");
}

#[test]
fn library_file_name_decorates() {
    assert_eq!(unix().library_file_name("foo"), "libfoo.so");
    assert_eq!(Decoration::new("", ".dll").library_file_name("foo"), "foo.dll");
}

#[test]
fn live_file_name_numbers_load_files() {
    let deco = unix();
    assert_eq!(deco.live_file_name("foo", 0), "libfoo_live0.so");
    assert_eq!(deco.live_file_name("foo", 1), "libfoo_live1.so");
    assert_eq!(deco.live_file_name("foo", 42), "libfoo_live42.so");
}
