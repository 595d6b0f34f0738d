use removebg::error::RemoveBgError;
use removebg::paths::{
    default_dir, default_name, derive_output_path, get_model_dir, get_model_path, keeps_path,
    remove_background, InputEntry, MODEL_URL,
};

#[test]
fn output_path_defaults_to_stem_with_suffix() {
    let out = remove_background("a/b/photo.JPEG", None, InputEntry::RegularFile).unwrap();
    assert_eq!(out, "a/b/photo_nobg.png");
}

#[test]
fn output_path_extension_is_forced_to_png() {
    let out = remove_background("photo.jpg", Some("out.jpeg"), InputEntry::RegularFile).unwrap();
    assert_eq!(out, "out.png");
}

#[test]
fn output_path_with_png_extension_is_kept() {
    let out = derive_output_path("photo.jpg", Some("dir/result.png")).unwrap();
    assert_eq!(out, "dir/result.png");
}

#[test]
fn output_path_without_extension_gets_png() {
    let out = derive_output_path("photo.jpg", Some("dir/result")).unwrap();
    assert_eq!(out, "dir/result.png");
}

#[test]
fn output_path_upper_case_png_is_replaced() {
    let out = derive_output_path("photo.jpg", Some("result.PNG")).unwrap();
    assert_eq!(out, "result.png");
}

#[test]
fn output_path_for_bare_file_name() {
    let out = derive_output_path("photo.jpg", None).unwrap();
    assert_eq!(out, "photo_nobg.png");
}

#[test]
fn output_path_for_input_without_extension() {
    let out = derive_output_path("shots/photo", None).unwrap();
    assert_eq!(out, "shots/photo_nobg.png");
}

#[test]
fn output_path_for_input_without_stem_fails() {
    assert!(matches!(derive_output_path("..", None), Err(RemoveBgError::ProcessingError(_))));
    assert!(matches!(derive_output_path("/", None), Err(RemoveBgError::ProcessingError(_))));
}

#[test]
fn missing_input_is_file_not_found() {
    let r = remove_background("nowhere.jpg", None, InputEntry::Missing);
    match r {
        Err(RemoveBgError::FileNotFound(p)) => assert_eq!(p, "nowhere.jpg"),
        other => panic!("unexpected {:?}", other),
    }
}

#[test]
fn directory_input_is_not_a_file() {
    let r = remove_background("some/dir", Some("out.png"), InputEntry::NotRegular);
    match r {
        Err(RemoveBgError::NotAFile(p)) => assert_eq!(p, "some/dir"),
        other => panic!("unexpected {:?}", other),
    }
}

#[test]
fn missing_input_wins_over_bad_stem() {
    assert!(matches!(
        remove_background("..", None, InputEntry::Missing),
        Err(RemoveBgError::FileNotFound(_))
    ));
}

#[test]
fn model_path_is_below_home() {
    assert_eq!(get_model_dir(Some("/home/user")).unwrap(), "/home/user/.u2net");
    assert_eq!(get_model_path(Some("/home/user")).unwrap(), "/home/user/.u2net/u2net.onnx");
}

#[test]
fn model_path_without_home_fails() {
    assert!(matches!(get_model_path(None), Err(RemoveBgError::ModelInitError(_))));
    assert!(matches!(get_model_dir(None), Err(RemoveBgError::ModelInitError(_))));
}

#[test]
fn model_url_names_the_model_file() {
    assert!(MODEL_URL.starts_with("https://"));
    assert!(MODEL_URL.ends_with("/u2net.onnx"));
}

#[test]
fn failures_carry_their_descriptions() {
    match derive_output_path("..", None) {
        Err(e) => assert_eq!(e.message(), "Failed to process image: Invalid input filename"),
        Ok(p) => panic!("unexpected {}", p),
    }
    match get_model_path(None) {
        Err(e) => assert_eq!(
            e.message(),
            "Model initialization failed: Could not determine home directory"
        ),
        Ok(p) => panic!("unexpected {}", p),
    }
}

#[test]
fn crate_root_offers_the_operation() {
    let r = removebg::remove_background("x.png", None, InputEntry::Missing);
    assert!(matches!(r, Err(removebg::RemoveBgError::FileNotFound(_))));
}

#[test]
fn only_png_extension_keeps_the_path() {
    assert!(keeps_path(Some("png")));
    assert!(!keeps_path(Some("PNG")));
    assert!(!keeps_path(Some("jpeg")));
    assert!(!keeps_path(Some("")));
    assert!(!keeps_path(None));
}

#[test]
fn default_name_appends_suffix_to_stem() {
    assert_eq!(default_name("photo"), "photo_nobg.png");
    assert_eq!(default_name(""), "_nobg.png");
    assert_eq!(default_name("a.b"), "a.b_nobg.png");
}

#[test]
fn default_dir_is_parent_or_current() {
    assert_eq!(default_dir(Some("a/b")), "a/b");
    assert_eq!(default_dir(Some("")), "");
    assert_eq!(default_dir(None), ".");
}
