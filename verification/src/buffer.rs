//! Byte sources that a frame can be backed by.

use bytes::Bytes;
use vstd::prelude::*;

verus! {

/// A source of bytes that can be read as one slice.
pub trait Buffer {
    /// The bytes that the source holds.
    spec fn contents(&self) -> Seq<u8>;

    /// The bytes of the source.
    fn as_slice(&self) -> (bytes: &[u8])
        ensures
            bytes@ == self.contents(),
    ;
}

/// A source of bytes that can be written in place.
pub trait BufferMut: Buffer {
    /// The bytes of the source, for writing. What is written to the slice is
    /// what the source holds afterwards.
    fn as_mut_slice(&mut self) -> (bytes: &mut [u8])
        ensures
            bytes@ == old(self).contents(),
            final(bytes)@ == final(self).contents(),
    ;
}

impl Buffer for Vec<u8> {
    open spec fn contents(&self) -> Seq<u8> {
        self@
    }

    fn as_slice(&self) -> (bytes: &[u8]) {
        Vec::as_slice(self)
    }
}

impl BufferMut for Vec<u8> {
    fn as_mut_slice(&mut self) -> (bytes: &mut [u8]) {
        Vec::as_mut_slice(self)
    }
}

impl<'a> Buffer for &'a [u8] {
    open spec fn contents(&self) -> Seq<u8> {
        (**self)@
    }

    fn as_slice(&self) -> (bytes: &[u8]) {
        *self
    }
}

impl<'a> Buffer for &'a mut [u8] {
    open spec fn contents(&self) -> Seq<u8> {
        (**self)@
    }

    fn as_slice(&self) -> (bytes: &[u8]) {
        &**self
    }
}

impl<'a> BufferMut for &'a mut [u8] {
    fn as_mut_slice(&mut self) -> (bytes: &mut [u8]) {
        &mut **self
    }
}

impl Buffer for Bytes {
    open spec fn contents(&self) -> Seq<u8> {
        bytes_contents(*self)
    }

    fn as_slice(&self) -> (bytes: &[u8]) {
        bytes_as_slice(self)
    }
}

/// `bytes::Bytes`, a reference-counted, immutable run of bytes. Nothing of
/// its inside is known here; `bytes_contents` names what it holds.
#[verifier::external_type_specification]
#[verifier::external_body]
pub struct ExBytes(bytes::Bytes);

/// The bytes that a `Bytes` value holds, in order.
pub uninterp spec fn bytes_contents(bytes: Bytes) -> Seq<u8>;

/// `<Bytes as AsRef<[u8]>>::as_ref`: the slice that the value gives is taken
/// to be the bytes that it holds.
#[verifier::external_body]
pub(crate) fn bytes_as_slice(bytes: &Bytes) -> (slice: &[u8])
    ensures
        slice@ == bytes_contents(*bytes),
{
    bytes.as_ref()
}

/// `<Bytes as From<Vec<u8>>>::from`: the value takes the vector over and is
/// taken to hold the same bytes, in the same order.
#[verifier::external_body]
pub(crate) fn bytes_from_vec(vec: Vec<u8>) -> (bytes: Bytes)
    ensures
        bytes_contents(bytes) == vec@,
{
    Bytes::from(vec)
}

/// `<Bytes as Clone>::clone`: the second handle is taken to hold the same
/// bytes as the first.
#[verifier::external_body]
pub(crate) fn bytes_clone(bytes: &Bytes) -> (copy: Bytes)
    ensures
        bytes_contents(copy) == bytes_contents(*bytes),
{
    bytes.clone()
}

} // verus!
