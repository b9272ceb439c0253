use riv::utils::{default_timeout, err_code, start_after, ExitError, Start};

#[test]
fn exit_errors() {
    let e = ExitError::new("boom", 4);
    assert_eq!(e.message(), "boom");
    assert_eq!(e.exit_code(), 4);
    let e = err_code("the remote process failed to load the image", 2).unwrap_err();
    assert_eq!(e.exit_code(), 2);
    assert_eq!(e.message(), "the remote process failed to load the image");
}

#[test]
fn start_decisions() {
    assert_eq!(start_after(true, Some(true), false).unwrap(), Start::Done);
    assert_eq!(start_after(true, Some(true), true).unwrap(), Start::Done);
    assert_eq!(start_after(true, Some(false), false).unwrap_err().exit_code(), 2);
    assert_eq!(start_after(true, None, true).unwrap_err().exit_code(), 3);
    assert_eq!(start_after(true, None, false).unwrap(), Start::Serve);
    assert_eq!(start_after(false, None, true).unwrap_err().exit_code(), 1);
    assert_eq!(start_after(false, None, false).unwrap(), Start::Serve);
}

#[test]
fn default_timeouts() {
    assert_eq!(default_timeout(false), 1);
    assert_eq!(default_timeout(true), 5);
}
