use rawtiff::paths::derive_output_path;
use rawtiff::paths::file_name;
use rawtiff::paths::join_path;
use rawtiff::paths::stem;

#[test]
fn derive_photo_example() {
    assert_eq!(
        derive_output_path("out/", "a/b/photo.raw"),
        Some(String::from("out/photo.tiff"))
    );
    assert_eq!(
        derive_output_path("out", "a/b/photo.raw"),
        Some(String::from("out/photo.tiff"))
    );
}

#[test]
fn derive_no_extension() {
    assert_eq!(
        derive_output_path("out", "photo"),
        Some(String::from("out/photo.tiff"))
    );
}

#[test]
fn derive_multi_dot_name() {
    assert_eq!(
        derive_output_path("out", "a/archive.tar.gz"),
        Some(String::from("out/archive.tar.tiff"))
    );
}

#[test]
fn derive_hidden_file() {
    assert_eq!(
        derive_output_path("out", "a/.config"),
        Some(String::from("out/.config.tiff"))
    );
}

#[test]
fn derive_trailing_separator() {
    assert_eq!(
        derive_output_path("out", "a/b/"),
        Some(String::from("out/b.tiff"))
    );
}

#[test]
fn derive_empty_output_dir() {
    assert_eq!(
        derive_output_path("", "photo.raw"),
        Some(String::from("photo.tiff"))
    );
}

#[test]
fn derive_rejects_inputs_without_file_name() {
    assert_eq!(derive_output_path("out", ""), None);
    assert_eq!(derive_output_path("out", "/"), None);
    assert_eq!(derive_output_path("out", "//"), None);
    assert_eq!(derive_output_path("out", "."), None);
    assert_eq!(derive_output_path("out", ".."), None);
    assert_eq!(derive_output_path("out", "a/.."), None);
}

#[test]
fn derive_skips_trailing_dot_components() {
    assert_eq!(
        derive_output_path("out", "a/."),
        Some(String::from("out/a.tiff"))
    );
    assert_eq!(
        derive_output_path("out", "a/b/./"),
        Some(String::from("out/b.tiff"))
    );
    assert_eq!(derive_output_path("out", "./"), None);
}

#[test]
fn file_name_basic() {
    assert_eq!(file_name("a/b/c.txt"), Some(String::from("c.txt")));
    assert_eq!(file_name("c.txt"), Some(String::from("c.txt")));
    assert_eq!(file_name("a/b/"), Some(String::from("b")));
    assert_eq!(file_name("/"), None);
    assert_eq!(file_name(""), None);
    assert_eq!(file_name("a/."), Some(String::from("a")));
    assert_eq!(file_name("a/././"), Some(String::from("a")));
    assert_eq!(file_name("a."), Some(String::from("a.")));
    assert_eq!(file_name("..."), Some(String::from("...")));
}

#[test]
fn stem_basic() {
    assert_eq!(stem("photo.raw"), "photo");
    assert_eq!(stem("photo"), "photo");
    assert_eq!(stem(".config"), ".config");
    assert_eq!(stem("a.tar.gz"), "a.tar");
}

#[test]
fn join_path_basic() {
    assert_eq!(join_path("out", "x"), String::from("out/x"));
    assert_eq!(join_path("out/", "x"), String::from("out/x"));
    assert_eq!(join_path("", "x"), String::from("x"));
}
