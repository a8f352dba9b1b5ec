//! A single expander pin as a push-pull output, sharing the driver with other pins.
use crate::bus::I2cBus;
use crate::config::Pin;
use crate::driver::XL9555;
use core::cell::{BorrowMutError, RefCell, RefMut};
use vstd::prelude::*;

verus! {

/// core::cell::RefCell, the shared container of the driver; opaque here.
#[verifier::external_type_specification]
#[verifier::external_body]
#[verifier::reject_recursive_types(T)]
pub struct ExRefCell<T: ?Sized>(RefCell<T>);

/// core::cell::RefMut, the guard of an exclusive borrow; opaque here.
#[verifier::external_type_specification]
#[verifier::external_body]
#[verifier::reject_recursive_types(T)]
pub struct ExRefMut<'b, T: ?Sized + 'b>(RefMut<'b, T>);

/// core::cell::BorrowMutError, returned while another borrow is alive; opaque here.
#[verifier::external_type_specification]
#[verifier::external_body]
pub struct ExBorrowMutError(BorrowMutError);

/// Relies on RefCell::try_borrow_mut: exclusive access to the contents, or an
/// error while another borrow is alive; it never panics.
pub assume_specification<T: ?Sized>[ RefCell::<T>::try_borrow_mut ](cell: &RefCell<T>) -> Result<
    RefMut<'_, T>,
    BorrowMutError,
>;

/// Relies on RefMut's DerefMut: the guard hands out the borrowed contents.
#[verifier::external_body]
fn guarded<'a, 'b, T>(guard: &'a mut RefMut<'b, T>) -> &'a mut T {
    core::ops::DerefMut::deref_mut(guard)
}

/// An electrical level.
#[derive(Clone, Copy, Debug, PartialEq, Eq, Structural)]
pub enum PinState {
    Low,
    High,
}

/// The one failure an output pin reports: the driver could not be reached, or
/// its bus transaction failed.
#[derive(Debug, Copy, Clone, Eq, PartialEq, Ord, PartialOrd, Hash, Structural)]
pub enum Error {
    I2cError,
}

/// One pin of a shared XL9555, driven as an output.
#[verifier::reject_recursive_types(B)]
pub struct Output<'d, B> {
    device: &'d RefCell<XL9555<B>>,
    pin: Pin,
}

/// Drives the pins of `pin` to `value` on a borrowed driver, narrowing a bus
/// error to [`Error::I2cError`].
pub fn drive_borrowed<B: I2cBus>(d: &mut XL9555<B>, pin: Pin, value: bool) -> (r: Result<(), Error>)
    ensures
        final(d).address() == old(d).address(),
        old(d).set_logged(old(d).transfers(), final(d).transfers(), pin@, value),
        r is Ok <==> final(d).transfers().last().ok(),
{
    match d.set_value(pin, value) {
        Ok(()) => Ok(()),
        Err(_) => Err(Error::I2cError),
    }
}

impl<'d, B: I2cBus> Output<'d, B> {
    /// The pin this handle drives.
    pub closed spec fn pin(&self) -> Pin {
        self.pin
    }

    /// The shared driver this handle drives its pin through.
    pub closed spec fn device(&self) -> &'d RefCell<XL9555<B>> {
        self.device
    }

    /// Drives the pin to `value` through the shared driver, with
    /// [`drive_borrowed`]. A driver that is already borrowed is not waited for:
    /// that fails at once with [`Error::I2cError`] and no bus transaction.
    fn drive(device: &'d RefCell<XL9555<B>>, pin: Pin, value: bool) -> (r: Result<(), Error>) {
        match device.try_borrow_mut() {
            Ok(mut guard) => {
                let xl9555: &mut XL9555<B> = guarded(&mut guard);
                drive_borrowed(xl9555, pin, value)
            },
            Err(_) => Err(Error::I2cError),
        }
    }

    /// Creates the handle for `pin` on `xl9555` and drives the pin to `level` at
    /// once; no handle comes back when that fails.
    pub fn new(xl9555: &'d RefCell<XL9555<B>>, pin: Pin, level: PinState) -> (r: Result<Self, Error>)
        ensures
            r matches Ok(o) ==> o.pin() == pin && o.device() == xl9555,
    {
        let value = match level {
            PinState::High => true,
            PinState::Low => false,
        };
        match Self::drive(xl9555, pin, value) {
            Ok(()) => Ok(Output { device: xl9555, pin }),
            Err(e) => Err(e),
        }
    }

    /// Drives the pin low.
    pub fn set_low(&mut self) -> (r: Result<(), Error>)
        ensures
            final(self).pin() == old(self).pin(),
            final(self).device() == old(self).device(),
    {
        Self::drive(self.device, self.pin, false)
    }

    /// Drives the pin high.
    pub fn set_high(&mut self) -> (r: Result<(), Error>)
        ensures
            final(self).pin() == old(self).pin(),
            final(self).device() == old(self).device(),
    {
        Self::drive(self.device, self.pin, true)
    }
}

} // verus!
