use removebg::error::RemoveBgError;

#[test]
fn exit_code_for_missing_file_is_1() {
    assert_eq!(RemoveBgError::FileNotFound("a.jpg".to_string()).exit_code(), 1);
}

#[test]
fn exit_code_for_bad_input_is_2() {
    assert_eq!(RemoveBgError::NotAFile("dir".to_string()).exit_code(), 2);
    assert_eq!(RemoveBgError::ImageError("bad".to_string()).exit_code(), 2);
}

#[test]
fn exit_code_for_everything_else_is_3() {
    assert_eq!(RemoveBgError::IoError("io".to_string()).exit_code(), 3);
    assert_eq!(RemoveBgError::ModelError("m".to_string()).exit_code(), 3);
    assert_eq!(RemoveBgError::ModelInitError("m".to_string()).exit_code(), 3);
    assert_eq!(RemoveBgError::ProcessingError("p".to_string()).exit_code(), 3);
}

#[test]
fn message_names_the_kind_and_the_detail() {
    assert_eq!(
        RemoveBgError::FileNotFound("a.jpg".to_string()).message(),
        "Input file not found: a.jpg"
    );
    assert_eq!(
        RemoveBgError::NotAFile("some/dir".to_string()).message(),
        "Input path is not a file: some/dir"
    );
    assert_eq!(
        RemoveBgError::IoError("denied".to_string()).message(),
        "Failed to read input file: denied"
    );
    assert_eq!(
        RemoveBgError::ImageError("bad header".to_string()).message(),
        "Failed to process image: bad header"
    );
    assert_eq!(
        RemoveBgError::ModelError("shape".to_string()).message(),
        "Model inference failed: shape"
    );
    assert_eq!(
        RemoveBgError::ModelInitError("no home".to_string()).message(),
        "Model initialization failed: no home"
    );
    assert_eq!(
        RemoveBgError::ProcessingError("oops".to_string()).message(),
        "Failed to process image: oops"
    );
}

#[test]
fn report_tells_input_faults_from_unexpected_failures() {
    assert_eq!(
        RemoveBgError::FileNotFound("a.jpg".to_string()).report(),
        "Error: Input file not found: a.jpg"
    );
    assert_eq!(
        RemoveBgError::NotAFile("d".to_string()).report(),
        "Error: Input path is not a file: d"
    );
    assert_eq!(
        RemoveBgError::ImageError("x".to_string()).report(),
        "Error: Failed to process image: x"
    );
    assert_eq!(
        RemoveBgError::ModelError("x".to_string()).report(),
        "Unexpected error: Model inference failed: x"
    );
    assert_eq!(
        RemoveBgError::IoError("x".to_string()).report(),
        "Unexpected error: Failed to read input file: x"
    );
}
