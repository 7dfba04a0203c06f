//! Fixed-capacity text buffer for foreign-call interop.
//!
//! The foreign console expects a null-terminated byte buffer of at most
//! [`CAPACITY`] bytes. [`BoundedString`] owns such a buffer, backed by a
//! `heapless::Vec`, and offers the two fallible operations the safety layer
//! needs: construction from source text (which reserves room for the
//! terminator) and appending the terminator itself. Both fail with
//! [`WrapperError::Overflow`] rather than truncate.

use vstd::prelude::*;

use crate::WrapperError;

verus! {

/// Capacity of the interop buffer in bytes, terminator included.
pub const CAPACITY: usize = 64;

/// The bytes a `heapless::Vec<u8, 64>` holds, in order.
pub uninterp spec fn hvec_bytes(v: heapless::Vec<u8, 64>) -> Seq<u8>;

#[verifier::external_type_specification]
#[verifier::external_body]
#[verifier::reject_recursive_types(T)]
pub struct ExHeaplessVec<T, const N: usize>(heapless::Vec<T, N>);

/// Relies on `heapless::Vec::new`: the new vector is empty.
#[verifier::external_body]
fn hvec_new() -> (r: heapless::Vec<u8, 64>)
    ensures
        hvec_bytes(r) == Seq::<u8>::empty(),
{
    heapless::Vec::new()
}

/// Relies on `heapless::Vec::extend_from_slice`: when the data fits under the
/// capacity it is appended whole, otherwise the vector is left unchanged and
/// an error is returned.
#[verifier::external_body]
fn hvec_extend(v: &mut heapless::Vec<u8, 64>, data: &[u8]) -> (r: Result<(), ()>)
    ensures
        r is Ok <==> hvec_bytes(*old(v)).len() + data@.len() <= 64,
        r is Ok ==> hvec_bytes(*final(v)) == hvec_bytes(*old(v)) + data@,
        r is Err ==> hvec_bytes(*final(v)) == hvec_bytes(*old(v)),
{
    v.extend_from_slice(data)
}

/// Relies on `heapless::Vec::push`: appends one byte when the vector is not
/// full, otherwise leaves it unchanged and hands the byte back.
#[verifier::external_body]
fn hvec_push(v: &mut heapless::Vec<u8, 64>, b: u8) -> (r: Result<(), u8>)
    ensures
        r is Ok <==> hvec_bytes(*old(v)).len() < 64,
        r is Ok ==> hvec_bytes(*final(v)) == hvec_bytes(*old(v)).push(b),
        r is Err ==> hvec_bytes(*final(v)) == hvec_bytes(*old(v)) && r->Err_0 == b,
{
    v.push(b)
}

/// Relies on `heapless::Vec::as_slice`: the slice holds exactly the vector's
/// bytes.
#[verifier::external_body]
fn hvec_as_slice(v: &heapless::Vec<u8, 64>) -> (r: &[u8])
    ensures
        r@ == hvec_bytes(*v),
{
    v.as_slice()
}

/// An owned text buffer of at most [`CAPACITY`] bytes, meant to be filled
/// once, null-terminated, handed to one foreign call, and discarded.
#[derive(Debug)]
pub struct BoundedString {
    buf: heapless::Vec<u8, 64>,
}

impl View for BoundedString {
    type V = Seq<u8>;

    closed spec fn view(&self) -> Seq<u8> {
        hvec_bytes(self.buf)
    }
}

impl BoundedString {
    /// The buffer never holds more than [`CAPACITY`] bytes.
    pub open spec fn wf(&self) -> bool {
        self@.len() <= CAPACITY
    }

    /// Constructs a buffer holding `text`, reserving room for the terminator:
    /// fails iff the text plus one terminator byte would not fit.
    pub fn from_text(text: &[u8]) -> (r: Result<BoundedString, WrapperError>)
        ensures
            r is Ok <==> text@.len() + 1 <= CAPACITY,
            r matches Ok(b) ==> b@ == text@ && b.wf(),
            r is Err ==> r == Err::<BoundedString, WrapperError>(WrapperError::Overflow),
    {
        if text.len() >= CAPACITY {
            return Err(WrapperError::Overflow);
        }
        let mut buf = hvec_new();
        let filled = hvec_extend(&mut buf, text);
        match filled {
            Ok(()) => Ok(BoundedString { buf }),
            Err(()) => Err(WrapperError::Overflow),
        }
    }

    /// Appends the null terminator: fails iff no room remains.
    pub fn append_terminator(&mut self) -> (r: Result<(), WrapperError>)
        ensures
            r is Ok <==> old(self)@.len() + 1 <= CAPACITY,
            r is Ok ==> final(self)@ == old(self)@.push(0u8) && final(self).wf(),
            r is Err ==> final(self)@ == old(self)@
                && r == Err::<(), WrapperError>(WrapperError::Overflow),
    {
        match hvec_push(&mut self.buf, 0u8) {
            Ok(()) => Ok(()),
            Err(_) => Err(WrapperError::Overflow),
        }
    }

    /// Read-only view of the buffer's bytes, for handing to a foreign call.
    pub fn as_bytes(&self) -> (r: &[u8])
        ensures
            r@ == self@,
    {
        hvec_as_slice(&self.buf)
    }
}

} // verus!
