use sandbox_build::artifact::{
    is_artifact_name, locate, ARTIFACT_EXTENSION, DEPFILE_MARKER, OUTPUT_DIR,
};

fn names(list: &[&str]) -> Vec<String> {
    list.iter().map(|s| s.to_string()).collect()
}

#[test]
fn conventions_of_the_toolchain() {
    assert_eq!(OUTPUT_DIR, "target/wasm32-unknown-unknown/release");
    assert_eq!(ARTIFACT_EXTENSION, "wasm");
    assert_eq!(DEPFILE_MARKER, ".d");
}

#[test]
fn a_name_with_the_extension_is_an_artifact() {
    assert!(is_artifact_name("contract.wasm", "wasm", ".d"));
    assert!(is_artifact_name("hello_world.wasm", "wasm", ".d"));
    assert!(is_artifact_name("..wasm", "wasm", ".d"));
    assert!(is_artifact_name("a.tar.gz", "tar.gz", ".d"));
}

#[test]
fn a_name_without_the_extension_is_no_artifact() {
    assert!(!is_artifact_name("contract.d", "wasm", ".d"));
    assert!(!is_artifact_name("contract.rlib", "wasm", ".d"));
    assert!(!is_artifact_name("contractwasm", "wasm", ".d"));
    assert!(!is_artifact_name(".wasm", "wasm", ".d"));
    assert!(!is_artifact_name("wasm", "wasm", ".d"));
    assert!(!is_artifact_name("", "wasm", ".d"));
    assert!(!is_artifact_name("contract.wasm.bak", "wasm", ".d"));
}

#[test]
fn a_name_with_the_marker_is_no_artifact() {
    assert!(!is_artifact_name("contract.d.wasm", "wasm", ".d"));
    assert!(!is_artifact_name("my.data.wasm", "wasm", ".d"));
    assert!(!is_artifact_name(".d.wasm", "wasm", ".d"));
    assert!(!is_artifact_name("contract.wasm", "wasm", ".w"));
    assert!(!is_artifact_name("contract.wasm", "wasm", ""));
}

#[test]
fn locate_takes_the_first_artifact() {
    let entries = names(&["contract.d", "build", "first.wasm", "second.wasm"]);
    assert_eq!(locate(&entries, 0, "wasm", ".d"), Some(2));
    assert_eq!(locate(&entries, 2, "wasm", ".d"), Some(2));
    assert_eq!(locate(&entries, 3, "wasm", ".d"), Some(3));
    assert_eq!(locate(&entries, 4, "wasm", ".d"), None);
    assert_eq!(locate(&entries, 9, "wasm", ".d"), None);
}

#[test]
fn locate_follows_the_order_of_the_entries() {
    let entries = names(&["second.wasm", "first.wasm"]);
    assert_eq!(locate(&entries, 0, "wasm", ".d"), Some(0));
}

#[test]
fn locate_never_takes_a_depfile() {
    let entries = names(&["contract.d.wasm", "contract.d", "other.d.wasm"]);
    assert_eq!(locate(&entries, 0, "wasm", ".d"), None);
    let entries = names(&["contract.d.wasm", "contract.wasm"]);
    assert_eq!(locate(&entries, 0, "wasm", ".d"), Some(1));
}

#[test]
fn locate_finds_nothing_in_an_empty_directory() {
    assert_eq!(locate(&Vec::new(), 0, "wasm", ".d"), None);
}
