use gharchive_source::format::{is_gzip_extension, is_gzip_path};

#[test]
fn gz_extension_is_gzip() {
    assert!(is_gzip_path("2015-01-01-15.json.gz"));
    assert!(is_gzip_path("a.gz"));
    assert!(is_gzip_path("/var/data/archive.tar.gz"));
    assert!(is_gzip_path("relative/dir/x.gz"));
}

#[test]
fn other_extensions_are_plain() {
    assert!(!is_gzip_path("2015-01-01-15.json"));
    assert!(!is_gzip_path("a.gzip"));
    assert!(!is_gzip_path("a.gz.json"));
    assert!(!is_gzip_path("a.GZ"));
    assert!(!is_gzip_path("a.Gz"));
    assert!(!is_gzip_path("a.zip"));
    assert!(!is_gzip_path("a.gz "));
}

#[test]
fn no_extension_is_plain() {
    assert!(!is_gzip_path(""));
    assert!(!is_gzip_path("archive"));
    assert!(!is_gzip_path("gz"));
    assert!(!is_gzip_path("dir/gz"));
    assert!(!is_gzip_path("a."));
}

#[test]
fn extension_is_taken_from_the_file_name() {
    assert!(!is_gzip_path("dir.gz/archive"));
    assert!(!is_gzip_path("dir.gz/archive.json"));
    assert!(is_gzip_path("dir.json/archive.gz"));
    assert!(!is_gzip_path(".gz"));
    assert!(!is_gzip_path("dir/.gz"));
    assert!(is_gzip_path("dir/.hidden.gz"));
    assert!(!is_gzip_path("a.gz/.."));
}

#[test]
fn extension_decides_alone() {
    assert!(is_gzip_extension(Some("gz")));
    assert!(!is_gzip_extension(None));
    assert!(!is_gzip_extension(Some("")));
    assert!(!is_gzip_extension(Some("g")));
    assert!(!is_gzip_extension(Some("gzz")));
    assert!(!is_gzip_extension(Some("zg")));
    assert!(!is_gzip_extension(Some("GZ")));
    assert!(!is_gzip_extension(Some("json")));
    assert!(!is_gzip_extension(Some(".gz")));
}
