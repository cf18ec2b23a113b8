//! Lifecycle of a device handle and the outcomes of its operations.
//!
//! The native open call returns either the address of a freshly allocated
//! device or null. [`open_outcome`] turns that into either a usable
//! [`Device`] or a distinguishable allocation error — never both, never
//! neither. A [`Device`] cannot be cloned or copied, and the one way to get
//! its handle back out, [`Device::release`], consumes it: whoever owns the
//! handle address for closing obtained it exactly once, on whatever path the
//! owning scope exits by.
//!
//! Selection and poll calls report three different worlds in one status
//! integer: a transport error (negative), no target in the field (zero), or
//! a target selected (positive). [`select_outcome`] keeps the middle one
//! distinct from hard errors, as callers must be able to tell a missing tag
//! from a broken device.

use vstd::prelude::*;

use crate::error::Error;
use crate::error::error_of_code;

verus! {

/// An owned, open device handle.
///
/// Holds the nonzero address of the native device. The type has no clone or
/// copy: ownership stands for the exclusive right to use and, once, to
/// release the native handle.
pub struct Device {
    handle: usize,
}

impl Device {
    /// The invariant every value of this type carries: the handle address is
    /// never null.
    #[verifier::type_invariant]
    pub closed spec fn inv(self) -> bool {
        self.handle != 0
    }

    /// The native handle address this device owns.
    pub closed spec fn id(self) -> usize {
        self.handle
    }

    /// Read the native handle address without giving up ownership.
    pub fn raw_handle(&self) -> (r: usize)
        ensures
            r == self.id(),
            r != 0,
    {
        proof {
            use_type_invariant(self);
        }
        self.handle
    }

    /// Surrender the handle for closing. Consumes the device: because the
    /// type cannot be cloned or copied, the address comes back out exactly
    /// once, and no operation on the device is possible afterwards.
    pub fn release(self) -> (r: usize)
        ensures
            r == self.id(),
            r != 0,
    {
        proof {
            use_type_invariant(&self);
        }
        self.handle
    }
}

/// Outcome of opening a device, from the address the native open returned:
/// a nonzero address becomes a usable owned handle, a null address becomes
/// the allocation error — one of the two, never both.
pub fn open_outcome(raw_handle: usize) -> (r: Result<Device, Error>)
    ensures
        raw_handle != 0 <==> r is Ok,
        r matches Ok(d) ==> d.id() == raw_handle,
        raw_handle == 0 ==> r == Err::<Device, Error>(Error::AllocationFailed),
{
    if raw_handle == 0 {
        Err(Error::AllocationFailed)
    } else {
        Ok(Device { handle: raw_handle })
    }
}

/// Outcome of a target selection or poll, from its native status: negative
/// is a transport error, translated; zero means no target responded, a
/// distinct and expected outcome; positive means a target was selected.
pub fn select_outcome(status: i32) -> (r: Result<(), Error>)
    ensures
        status > 0 <==> r is Ok,
        status == 0 ==> r == Err::<(), Error>(Error::NoTargetFound),
        status < 0 ==> r == Err::<(), Error>(error_of_code(status)),
{
    if status > 0 {
        Ok(())
    } else if status == 0 {
        Err(Error::NoTargetFound)
    } else {
        Err(Error::from_code(status))
    }
}

/// The absence of a target is never confused with a device malfunction: no
/// native status code translates to the no-target outcome.
pub proof fn lemma_no_target_is_not_a_transport_error(status: i32)
    requires
        status < 0,
    ensures
        error_of_code(status) != Error::NoTargetFound,
{
}

/// Outcome of listing passive targets: the native status is either a
/// negative transport error or the number of targets found. Only that many
/// entries of the caller's array were filled in, and never more than the
/// array holds: the count of real entries is the smaller of the two.
pub fn list_count(status: i32, max_len: usize) -> (r: Result<usize, Error>)
    ensures
        status >= 0 <==> r is Ok,
        status >= 0 ==> r == Ok::<usize, Error>(
            if status <= max_len {
                status as usize
            } else {
                max_len
            },
        ),
        status < 0 ==> r == Err::<usize, Error>(error_of_code(status)),
{
    if status < 0 {
        return Err(Error::from_code(status));
    }
    let found = status as usize;
    if found <= max_len {
        Ok(found)
    } else {
        Ok(max_len)
    }
}

/// A fresh zeroed receive buffer of the caller-specified capacity, for a
/// native call to fill.
pub fn rx_buffer(len: usize) -> (r: Vec<u8>)
    ensures
        r@ == Seq::new(len as nat, |i: int| 0u8),
        r@.len() == len,
{
    let mut buf: Vec<u8> = Vec::new();
    let mut i: usize = 0;
    while i < len
        invariant
            i <= len,
            buf@.len() == i,
            forall|j: int| 0 <= j < i ==> buf@[j] == 0u8,
        decreases len - i,
    {
        buf.push(0);
        i += 1;
    }
    proof {
        assert(buf@ =~= Seq::new(len as nat, |i: int| 0u8));
    }
    buf
}

} // verus!
