use std::io::ErrorKind;
use std::sync::{Mutex, PoisonError};
use std::time::Duration;

use ble_error::Error;

#[test]
fn client_renders_its_message() {
    let e = Error::client("adapter busy".to_string());
    assert!(matches!(e, Error::ClientError(_)));
    assert_eq!(e.to_string(), "adapter busy");
}

#[test]
fn client_renders_empty_message() {
    assert_eq!(Error::client(String::new()).to_string(), "");
}

#[test]
fn client_keeps_unicode_and_spaces() {
    let m = "  héllo wörld  ";
    assert_eq!(Error::client(m.to_string()).to_string(), m);
}

#[test]
fn from_str_copies_the_literal() {
    let e = Error::from("no device selected");
    assert!(matches!(e, Error::ClientError(ref m) if m == "no device selected"));
    assert_eq!(e.to_string(), "no device selected");
}

#[test]
fn transport_error_passes_through() {
    let direct = btleplug::Error::DeviceNotFound.to_string();
    let e = Error::from(btleplug::Error::DeviceNotFound);
    assert!(matches!(e, Error::BLEError(btleplug::Error::DeviceNotFound)));
    assert_eq!(e.to_string(), direct);
    assert_eq!(e.to_string(), "Device not found");
}

#[test]
fn transport_error_with_payload_passes_through() {
    let direct = btleplug::Error::NotSupported("scan filter".to_string()).to_string();
    let e = Error::from(btleplug::Error::NotSupported("scan filter".to_string()));
    assert_eq!(e.to_string(), direct);
    assert_eq!(e.to_string(), "The operation is not supported: scan filter");
}

#[test]
fn poisoned_lock_gives_fixed_message() {
    let lock = Mutex::new(7u32);
    let guard = lock.lock().unwrap();
    let e = Error::from(PoisonError::new(guard));
    assert!(matches!(e, Error::ClientError(_)));
    let text = e.to_string();
    assert!(!text.is_empty());
    assert_eq!(text, "Asynchronous error. Can not recursively lock mutex.");
}

#[test]
fn two_poisoned_locks_give_equal_messages() {
    let first = Mutex::new(1u8);
    let second = Mutex::new(String::from("state"));
    let a = Error::from(PoisonError::new(first.lock().unwrap()));
    let b = Error::from(PoisonError::new(second.lock().unwrap()));
    assert_eq!(a.to_string(), b.to_string());
    assert!(!a.to_string().is_empty());
}

#[test]
fn elapsed_deadline_gives_timeout_message() {
    let runtime = tokio::runtime::Builder::new_current_thread()
        .enable_time()
        .build()
        .unwrap();
    let outcome = runtime.block_on(async {
        tokio::time::timeout(Duration::from_millis(1), std::future::pending::<()>()).await
    });
    let elapsed = outcome.unwrap_err();
    let e = Error::from(elapsed);
    assert!(matches!(e, Error::ClientError(_)));
    assert_eq!(e.to_string(), "Timeout error");
}

#[test]
fn timer_error_becomes_client_error_with_its_text() {
    let timer = tokio::time::error::Error::shutdown();
    let direct = timer.to_string();
    let e = Error::from(timer);
    assert!(matches!(e, Error::ClientError(_)));
    assert_eq!(e.to_string(), direct);
    assert_eq!(
        e.to_string(),
        "the timer is shutdown, must be called from the context of Tokio runtime"
    );
}

#[test]
fn io_error_keeps_its_rendering() {
    let io = std::io::Error::new(ErrorKind::PermissionDenied, "cache directory is read-only");
    let direct = io.to_string();
    let e = Error::from(io);
    assert!(matches!(e, Error::ClientError(_)));
    assert_eq!(e.to_string(), direct);
    assert_eq!(e.to_string(), "cache directory is read-only");
}

#[test]
fn io_not_found_keeps_its_wording() {
    let io = std::io::Error::from(ErrorKind::NotFound);
    let wording = io.to_string();
    let e = Error::from(io);
    assert!(e.to_string().contains(&wording));
    assert!(!wording.is_empty());
}

#[test]
fn timeout_variant_renders_timer_text() {
    let e = Error::TimeoutError(tokio::time::error::Error::at_capacity());
    assert_eq!(e.to_string(), "timer is at capacity and cannot create a new entry");
}

#[test]
fn transport_variant_renders_transport_text() {
    let e = Error::BLEError(btleplug::Error::NotConnected);
    assert_eq!(e.to_string(), "Not connected");
}

fn connect(ok: bool) -> ble_error::Result<u8> {
    if ok {
        Ok(3)
    } else {
        Err(Error::from("not connected"))
    }
}

#[test]
fn result_alias_carries_error() {
    assert_eq!(connect(true).unwrap(), 3);
    assert_eq!(connect(false).unwrap_err().to_string(), "not connected");
}
