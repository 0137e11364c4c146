//! The formatting shapes that log lines about errors are built from.

use common_error::ext::ErrorExt;
use common_error::mock::MockError;
use common_error::status_code::StatusCode;

#[test]
fn test_log_args() {
    let target = "my_target";
    println!("{}: {}", target, "foo");
    println!("{}: {}", target, format!("foo: {}", 3));
    println!("{}: {}", target, format!("hello {world}", world = "world"));

    assert_eq!(format!("foo: {}", 3), "foo: 3");
    assert_eq!(format!("hello {world}", world = "world"), "hello world");
}

#[test]
fn test_log_no_target() {
    println!("foo");
    println!("{}", format!("foo: {}", 3));

    assert_eq!(format!("foo: {}", 3), "foo: 3");
}

#[test]
fn test_log_ref_scope_args() {
    let bar = 35;
    let world = "world";
    let target = "my_target";
    println!("{}: {}", target, format!("bar: {bar}"));
    println!("{}: {}", target, format!("bar: {bar}, hello {}", world));
    println!("{}: {}", target, format!("bar: {bar}, hello {world}"));

    assert_eq!(format!("bar: {bar}"), "bar: 35");
    assert_eq!(format!("bar: {bar}, hello {}", world), "bar: 35, hello world");
    assert_eq!(format!("bar: {bar}, hello {world}"), "bar: 35, hello world");
}

#[test]
fn test_log_error() {
    let err = MockError::new(StatusCode::Unknown);
    let err_ref = &err;
    let err_ref2 = &err_ref;

    let target = "my_target";
    println!("{}: {}", target, format!("hello {}", "world"));
    // An error attaches to the line both in debug shape and in display
    // shape; both come from the error's own rendering.
    println!("{}: err={} {}", target, err.message(), format!("hello {}", "world"));
    println!("{}: err={} {}", target, err_ref.message(), format!("hello {}", "world"));
    println!("err={} {}", err_ref2.message(), format!("hello {}", "world"));
    println!("{}", format!("hello {}", "world"));

    let root_err = MockError::with_source(err);
    println!("err={} {}", root_err.message(), format!("Error with source hello {}", "world"));
    assert_eq!(root_err.message(), "Unknown");
}
