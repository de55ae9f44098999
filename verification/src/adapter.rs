//! The PCF8574 signal adapter: one I2C device handle, one shadow byte, and a
//! pluggable policy for write errors.

use vstd::prelude::*;

use crate::shadow::{with_bit, with_nibble, Shadow};
use i2cdev::linux::{LinuxI2CDevice, LinuxI2CError};

verus! {

#[verifier::external_type_specification]
#[verifier::external_body]
pub struct ExLinuxI2CDevice(LinuxI2CDevice);

#[verifier::external_type_specification]
#[verifier::external_body]
pub struct ExLinuxI2CError(LinuxI2CError);

/// Relies on i2cdev's `LinuxI2CDevice::new`: opens `/dev/i2c-<bus>` and
/// selects `address` as the slave address, reporting every open, address or
/// configuration failure as `Err`. Whether it succeeds depends on the
/// machine's device nodes, so nothing more can be promised of the result.
#[verifier::external_body]
fn open_device(bus: u8, address: u16) -> Result<LinuxI2CDevice, LinuxI2CError> {
    LinuxI2CDevice::new(format!("/dev/i2c-{}", bus), address)
}

/// Relies on i2cdev's `I2CDevice::smbus_write_byte`: performs exactly one bus
/// transaction that transmits `value` and nothing else, reporting failure as
/// `Err`. Whether the transaction succeeds depends on the hardware, so
/// nothing can be promised of the result.
#[verifier::external_body]
fn write_byte(dev: &mut LinuxI2CDevice, value: u8) -> Result<(), LinuxI2CError> {
    <LinuxI2CDevice as i2cdev::core::I2CDevice>::smbus_write_byte(dev, value)
}

/// A caller-supplied handler for transport write errors, used by
/// [`ErrorHandling::Custom`]. The adapter promises nothing about what the
/// handler does; it only promises to invoke it once per failed write.
pub trait ErrorHook {
    fn handle(&mut self, err: LinuxI2CError);
}

/// What to do when a write to the expander fails. `apply` has no error
/// channel to its caller (the LCD controller's hardware contract has none),
/// so the policy decides the fate of every write error internally.
pub enum ErrorHandling {
    /// Ignore write errors.
    Ignore,
    /// Treat a write error as fatal: the failure is handed back so the
    /// unverified rim of the program can terminate with it.
    Fatal,
    /// Run a custom handler on every write error.
    Custom(Box<dyn ErrorHook>),
}

impl ErrorHandling {
    /// True iff this policy discards write errors.
    pub open spec fn is_ignore(&self) -> bool {
        self is Ignore
    }

    /// True iff this policy treats write errors as fatal.
    pub open spec fn is_fatal(&self) -> bool {
        self is Fatal
    }

    /// True iff this policy runs a custom handler on write errors.
    pub open spec fn is_custom(&self) -> bool {
        self is Custom
    }
}

/// Law: a policy is exactly one of the three kinds — ignore, fatal, or
/// custom.
pub proof fn lemma_policy_kind_exclusive(p: &ErrorHandling)
    ensures
        p.is_ignore() || p.is_fatal() || p.is_custom(),
        p.is_ignore() ==> !p.is_fatal() && !p.is_custom(),
        p.is_fatal() ==> !p.is_ignore() && !p.is_custom(),
        p.is_custom() ==> !p.is_ignore() && !p.is_fatal(),
{
}

/// Decide the fate of one write outcome under the current policy.
///
/// Returns `Some(err)` exactly when the write failed and the policy is
/// [`ErrorHandling::Fatal`]; the caller then owes the process termination
/// that the policy demands. Under [`ErrorHandling::Custom`] the handler runs
/// once with the error; under [`ErrorHandling::Ignore`] the error is dropped.
pub fn react(on_err: &mut ErrorHandling, outcome: Result<(), LinuxI2CError>) -> (fatal: Option<
    LinuxI2CError,
>)
    ensures
        final(on_err).is_ignore() == old(on_err).is_ignore(),
        final(on_err).is_fatal() == old(on_err).is_fatal(),
        final(on_err).is_custom() == old(on_err).is_custom(),
        outcome is Ok ==> *final(on_err) == *old(on_err),
        old(on_err).is_ignore() || old(on_err).is_fatal() ==> *final(on_err) == *old(on_err),
        fatal is Some <==> (outcome is Err && old(on_err).is_fatal()),
        fatal is Some ==> fatal->0 == outcome->Err_0,
{
    match outcome {
        Ok(()) => None,
        Err(e) => match on_err {
            ErrorHandling::Ignore => None,
            ErrorHandling::Fatal => Some(e),
            ErrorHandling::Custom(h) => {
                h.handle(e);
                None
            },
        },
    }
}

/// An LCD display attached via a PCF8574 I2C expander: the device handle,
/// the shadow byte that mirrors the expander's eight output pins, and the
/// write-error policy.
pub struct Pcf8574 {
    dev: LinuxI2CDevice,
    data: Shadow,
    on_err: ErrorHandling,
}

impl Pcf8574 {
    /// The shadow byte: the value the expander's pins were last set to (or
    /// will be set to on the next `apply`).
    pub closed spec fn shadow(&self) -> u8 {
        self.data@
    }

    /// The stored write-error policy.
    pub closed spec fn policy(&self) -> ErrorHandling {
        self.on_err
    }

    /// The owned transport handle.
    pub closed spec fn device(&self) -> LinuxI2CDevice {
        self.dev
    }

    /// True iff `self` and `other` hold the same kind of write-error policy.
    pub open spec fn same_policy(&self, other: &Pcf8574) -> bool {
        &&& self.policy_is_ignore() == other.policy_is_ignore()
        &&& self.policy_is_fatal() == other.policy_is_fatal()
        &&& self.policy_is_custom() == other.policy_is_custom()
    }

    /// True iff the policy discards write errors (the default).
    pub open spec fn policy_is_ignore(&self) -> bool {
        self.policy().is_ignore()
    }

    /// True iff the policy treats a write error as fatal.
    pub open spec fn policy_is_fatal(&self) -> bool {
        self.policy().is_fatal()
    }

    /// True iff the policy runs a custom handler on write errors.
    pub open spec fn policy_is_custom(&self) -> bool {
        self.policy().is_custom()
    }

    /// Create a new adapter, using the Linux I2C interface for
    /// communication. `bus` is the number of `/dev/i2c-<bus>` to use, and
    /// `address` is the I2C address of the device.
    ///
    /// On success the shadow byte starts as "backlight on, all else low" and
    /// the adapter ignores all write errors; see [`Self::on_error`] for how
    /// to change that. Any open or address failure is returned as an error,
    /// never a panic.
    pub fn new(bus: u8, address: u16) -> (r: Result<Pcf8574, LinuxI2CError>)
        ensures
            r is Ok ==> r->Ok_0.shadow() == 0b0000_1000u8,
            r is Ok ==> r->Ok_0.policy_is_ignore(),
    {
        match open_device(bus, address) {
            Ok(dev) => Ok(
                Pcf8574 { dev, data: Shadow::new(), on_err: ErrorHandling::Ignore },
            ),
            Err(e) => Err(e),
        }
    }

    /// Change the write-error policy: the stored policy becomes exactly the
    /// argument. The shadow byte and the transport handle are untouched and
    /// no bus traffic occurs.
    pub fn on_error(&mut self, on_err: ErrorHandling)
        ensures
            final(self).policy() == on_err,
            final(self).shadow() == old(self).shadow(),
            final(self).device() == old(self).device(),
    {
        self.on_err = on_err;
    }

    /// Force bit `offset` of the shadow byte to `bit`; every other bit and
    /// the policy are unchanged. No bus traffic.
    fn set_bit(&mut self, offset: u8, bit: bool)
        requires
            offset < 8,
        ensures
            final(self).shadow() == with_bit(old(self).shadow(), offset, bit),
            final(self).policy() == old(self).policy(),
            final(self).device() == old(self).device(),
    {
        self.data.set_bit(offset, bit);
    }

    /// Select the data register (`true`) or the command register (`false`):
    /// bit 0 of the shadow byte. Shadow only, no bus traffic.
    pub fn rs(&mut self, bit: bool)
        ensures
            final(self).shadow() == with_bit(old(self).shadow(), 0, bit),
            final(self).policy() == old(self).policy(),
            final(self).device() == old(self).device(),
    {
        self.set_bit(0, bit);
    }

    /// Raise (`true`) or drop (`false`) the enable strobe: bit 2 of the
    /// shadow byte. Shadow only, no bus traffic.
    pub fn enable(&mut self, bit: bool)
        ensures
            final(self).shadow() == with_bit(old(self).shadow(), 2, bit),
            final(self).policy() == old(self).policy(),
            final(self).device() == old(self).device(),
    {
        self.set_bit(2, bit);
    }

    /// Present a data nibble: bits 4-7 of the shadow byte are replaced
    /// wholesale by `bits << 4`, bits 0-3 are preserved. Shadow only, no bus
    /// traffic.
    ///
    /// The caller owes a value that fits in four bits: this driver wires
    /// only DB4-DB7, so a wider value would mean the controller is driving
    /// it in 8-bit mode, a contract violation that the unverified rim
    /// answers with a panic before this function is reached.
    pub fn data(&mut self, bits: u8)
        requires
            bits & 0xF0 == 0,
        ensures
            final(self).shadow() == with_nibble(old(self).shadow(), bits),
            final(self).policy() == old(self).policy(),
            final(self).device() == old(self).device(),
    {
        self.data.set_nibble(bits);
    }

    /// Commit the shadow byte to the expander: exactly one single-byte bus
    /// transaction carrying exactly the current shadow byte. The shadow and
    /// the policy kind are unchanged.
    ///
    /// A failed write is decided by the policy (see [`react`]): the result
    /// is `Some(err)` exactly when the policy is fatal and the write failed,
    /// and the caller then owes the process termination; under every other
    /// policy the result is `None` and the adapter stays usable.
    pub fn apply(&mut self) -> (fatal: Option<LinuxI2CError>)
        ensures
            final(self).shadow() == old(self).shadow(),
            final(self).same_policy(old(self)),
            old(self).policy_is_ignore() || old(self).policy_is_fatal() ==> final(self).policy()
                == old(self).policy(),
            fatal is Some ==> old(self).policy_is_fatal(),
            !old(self).policy_is_fatal() ==> fatal is None,
    {
        let value = self.data.value();
        let outcome = write_byte(&mut self.dev, value);
        react(&mut self.on_err, outcome)
    }

    /// Set the display's backlight on or off: force bit 3 of the shadow
    /// byte to `on` and commit the result at once with one `apply`. This is
    /// the one signal change that is not batched.
    pub fn backlight(&mut self, on: bool) -> (fatal: Option<LinuxI2CError>)
        ensures
            final(self).shadow() == with_bit(old(self).shadow(), 3, on),
            final(self).same_policy(old(self)),
            old(self).policy_is_ignore() || old(self).policy_is_fatal() ==> final(self).policy()
                == old(self).policy(),
            fatal is Some ==> old(self).policy_is_fatal(),
            !old(self).policy_is_fatal() ==> fatal is None,
    {
        self.set_bit(3, on);
        self.apply()
    }
}

} // verus!
