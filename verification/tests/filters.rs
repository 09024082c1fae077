use artifact_relay::transfer::file_passes;

fn list(xs: &[&str]) -> Vec<String> {
    xs.iter().map(|s| s.to_string()).collect()
}

#[test]
fn suffix_semantics_across_filter_spellings() {
    let name = "release-1.0.tar.gz";
    let none: Vec<String> = Vec::new();
    assert!(file_passes(name, &list(&["tar.gz"]), &none));
    assert!(file_passes(name, &list(&[".tar.gz"]), &none));
    assert!(file_passes(name, &list(&["gz"]), &none));
    assert!(!file_passes(name, &list(&["tar"]), &none));
    assert!(!file_passes(name, &list(&["zip"]), &none));
}

#[test]
fn extension_match_is_case_insensitive() {
    let none: Vec<String> = Vec::new();
    assert!(file_passes("Setup.EXE", &list(&["exe"]), &none));
    assert!(file_passes("setup.exe", &list(&["EXE"]), &none));
    assert!(file_passes("ARCHIVE.TAR.GZ", &list(&["tar.gz"]), &none));
}

#[test]
fn empty_rule_lists_match_everything() {
    let none: Vec<String> = Vec::new();
    assert!(file_passes("anything.bin", &none, &none));
    assert!(file_passes("no_extension", &none, &none));
}

#[test]
fn extension_filter_is_a_pure_suffix_match() {
    let none: Vec<String> = Vec::new();
    assert!(!file_passes("no_extension", &list(&["bin"]), &none));
    // The dot-prefixed suffix may be the whole name.
    assert!(file_passes(".gz", &list(&["gz"]), &none));
    assert!(file_passes(".bashrc", &list(&["bashrc"]), &none));
    // The bare extension text in the middle of the name is not enough.
    assert!(!file_passes("gzipped.txt", &list(&["gz"]), &none));
}

#[test]
fn include_filter_is_a_substring_check() {
    let none: Vec<String> = Vec::new();
    assert!(file_passes("UMS-server.tar.gz", &none, &list(&["UMS", "VMS"])));
    assert!(file_passes("the-VMS-part.log", &none, &list(&["UMS", "VMS"])));
    assert!(!file_passes("other.log", &none, &list(&["UMS", "VMS"])));
    // Case matters for includes.
    assert!(!file_passes("ums-server.tar.gz", &none, &list(&["UMS"])));
}

#[test]
fn filters_are_conjunctive() {
    let exts = list(&["tar.gz"]);
    let incs = list(&["UMS"]);
    assert!(file_passes("UMS-build.tar.gz", &exts, &incs));
    assert!(!file_passes("UMS-build.zip", &exts, &incs));
    assert!(!file_passes("other-build.tar.gz", &exts, &incs));
}
