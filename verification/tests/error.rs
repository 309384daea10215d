use ctrait::error::CtraitError;

#[test]
fn error_display_other() {
    assert_eq!(CtraitError::Other(String::from("error")).message(), "error");
}

#[test]
fn error_message_window_build() {
    assert_eq!(
        CtraitError::WindowBuild(String::from("height overflows")).message(),
        "height overflows"
    );
}

#[test]
fn error_from_string() {
    let error = CtraitError::from(String::from("boom"));
    assert!(matches!(error, CtraitError::Other(_)));
    assert_eq!(error.message(), "boom");
}
