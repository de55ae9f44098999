use std::cell::Cell;
use std::rc::Rc;

use i2cdev::linux::LinuxI2CError;
use lcd_pcf8574::{react, ErrorHandling, ErrorHook, Pcf8574};

fn io_error() -> LinuxI2CError {
    LinuxI2CError::Io(std::io::Error::new(std::io::ErrorKind::Other, "bus write failed"))
}

#[test]
fn ignore_policy_drops_write_errors() {
    let mut policy = ErrorHandling::Ignore;
    assert!(react(&mut policy, Err(io_error())).is_none());
    // The adapter stays usable: a later outcome is handled the same way.
    assert!(react(&mut policy, Err(io_error())).is_none());
    assert!(react(&mut policy, Ok(())).is_none());
}

#[test]
fn fatal_policy_hands_the_error_back() {
    let mut policy = ErrorHandling::Fatal;
    let fatal = react(&mut policy, Err(LinuxI2CError::Errno(5)));
    match fatal {
        Some(LinuxI2CError::Errno(code)) => assert_eq!(code, 5),
        _ => panic!("fatal policy must hand back the transport error"),
    }
}

#[test]
fn fatal_policy_passes_successful_writes() {
    let mut policy = ErrorHandling::Fatal;
    assert!(react(&mut policy, Ok(())).is_none());
}

struct CountingHook {
    calls: Rc<Cell<u32>>,
    last_errno: Rc<Cell<i32>>,
}

impl ErrorHook for CountingHook {
    fn handle(&mut self, err: LinuxI2CError) {
        self.calls.set(self.calls.get() + 1);
        if let LinuxI2CError::Errno(code) = err {
            self.last_errno.set(code);
        }
    }
}

#[test]
fn custom_hook_runs_once_per_failed_write() {
    let calls = Rc::new(Cell::new(0));
    let last_errno = Rc::new(Cell::new(0));
    let hook = CountingHook { calls: Rc::clone(&calls), last_errno: Rc::clone(&last_errno) };
    let mut policy = ErrorHandling::Custom(Box::new(hook));

    assert!(react(&mut policy, Err(LinuxI2CError::Errno(121))).is_none());
    assert_eq!(calls.get(), 1);
    assert_eq!(last_errno.get(), 121);

    assert!(react(&mut policy, Err(LinuxI2CError::Errno(110))).is_none());
    assert_eq!(calls.get(), 2);
    assert_eq!(last_errno.get(), 110);
}

#[test]
fn custom_hook_is_not_run_on_success() {
    let calls = Rc::new(Cell::new(0));
    let last_errno = Rc::new(Cell::new(0));
    let hook = CountingHook { calls: Rc::clone(&calls), last_errno: Rc::clone(&last_errno) };
    let mut policy = ErrorHandling::Custom(Box::new(hook));

    assert!(react(&mut policy, Ok(())).is_none());
    assert_eq!(calls.get(), 0);
}

#[test]
fn opening_a_missing_bus_is_an_error_not_a_panic() {
    // No /dev/i2c-250 exists; construction must report the failure.
    let r = Pcf8574::new(250, 0x27);
    assert!(r.is_err());
}

#[test]
fn opening_with_an_out_of_range_address_is_an_error_not_a_panic() {
    // 0xFFFF is above every valid 7-bit or 10-bit I2C address. On a machine
    // without that bus the open fails before the address is checked; either
    // way construction must report an error and never panic.
    let r = Pcf8574::new(250, 0xFFFF);
    assert!(r.is_err());
}
