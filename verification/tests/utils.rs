use engine_bridge::utils::{Describe, Exception, ExceptionKind, ResultExt};

#[test]
fn success_passes_through() {
    let result: Result<u32, String> = Ok(3);
    assert_eq!(result.or_throw(), Ok(3));
}

#[test]
fn error_is_thrown_with_its_text() {
    let result: Result<u32, String> = Err(String::from("No default output device"));
    assert_eq!(
        result.or_throw(),
        Err(Exception {
            kind: ExceptionKind::Error,
            message: String::from("No default output device"),
        })
    );
}

#[test]
fn text_describes_itself() {
    let exception = String::from("Track has been deleted").describe();
    assert_eq!(exception.kind, ExceptionKind::Error);
    assert_eq!(exception.message, "Track has been deleted");
    assert_eq!(String::new().describe().message, "");
}
