use sidecar_supervisor::decimal::{decimal_string, signed_decimal_string};
use sidecar_supervisor::launch::{health_url, launch_args};

#[test]
fn argument_shape_is_exact() {
    let args = launch_args(8000);
    assert_eq!(args.len(), 3);
    assert_eq!(args[0], "--port");
    assert_eq!(args[1], "8000");
    assert_eq!(args[2], "--tauri");
}

#[test]
fn argument_shape_for_another_port() {
    let args = launch_args(65535);
    assert_eq!(args, vec!["--port", "65535", "--tauri"]);
}

#[test]
fn health_url_uses_loopback_and_port() {
    assert_eq!(health_url(8000), "http://127.0.0.1:8000/health");
    assert_eq!(health_url(80), "http://127.0.0.1:80/health");
    assert_eq!(health_url(65535), "http://127.0.0.1:65535/health");
}

#[test]
fn decimal_rendering() {
    assert_eq!(decimal_string(0), "0");
    assert_eq!(decimal_string(7), "7");
    assert_eq!(decimal_string(10), "10");
    assert_eq!(decimal_string(8000), "8000");
    assert_eq!(decimal_string(65535), "65535");
    assert_eq!(decimal_string(u64::MAX), "18446744073709551615");
}

#[test]
fn signed_decimal_rendering() {
    assert_eq!(signed_decimal_string(0), "0");
    assert_eq!(signed_decimal_string(42), "42");
    assert_eq!(signed_decimal_string(-1), "-1");
    assert_eq!(signed_decimal_string(i32::MIN), "-2147483648");
    assert_eq!(signed_decimal_string(i32::MAX), "2147483647");
}
