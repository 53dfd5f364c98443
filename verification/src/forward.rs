//! The calls into the wrapped object.
//!
//! Each function here makes one call of `std::io::Read`, `Write` or `Seek`
//! on the wrapped object and hands back what came out. What the object does
//! is its own business, so nothing is promised of any result.

use std::io::{IoSlice, IoSliceMut, Read, Seek, SeekFrom, Write};
use vstd::prelude::*;

verus! {

/// `std::io::IoSliceMut`, carried through as it is.
#[verifier::external_type_specification]
#[verifier::external_body]
pub struct ExIoSliceMut<'a>(std::io::IoSliceMut<'a>);

/// `std::io::IoSlice`, carried through as it is.
#[verifier::external_type_specification]
#[verifier::external_body]
pub struct ExIoSlice<'a>(std::io::IoSlice<'a>);

/// `std::fmt::Arguments`, carried through as it is.
#[verifier::external_type_specification]
#[verifier::external_body]
pub struct ExArguments<'a>(std::fmt::Arguments<'a>);

/// `Read::read` on the wrapped object.
#[verifier::external_body]
pub(crate) fn read<T: Read>(inner: &mut T, buf: &mut [u8]) -> (result: std::io::Result<usize>) {
    inner.read(buf)
}

/// `Read::read_vectored` on the wrapped object.
#[verifier::external_body]
pub(crate) fn read_vectored<T: Read>(inner: &mut T, bufs: &mut [IoSliceMut<'_>]) -> (result:
    std::io::Result<usize>) {
    inner.read_vectored(bufs)
}

/// `Read::read_to_end` on the wrapped object.
#[verifier::external_body]
pub(crate) fn read_to_end<T: Read>(inner: &mut T, buf: &mut Vec<u8>) -> (result: std::io::Result<
    usize,
>) {
    inner.read_to_end(buf)
}

/// `Read::read_to_string` on the wrapped object.
#[verifier::external_body]
pub(crate) fn read_to_string<T: Read>(inner: &mut T, buf: &mut String) -> (result: std::io::Result<
    usize,
>) {
    inner.read_to_string(buf)
}

/// `Read::read_exact` on the wrapped object.
#[verifier::external_body]
pub(crate) fn read_exact<T: Read>(inner: &mut T, buf: &mut [u8]) -> (result: std::io::Result<()>) {
    inner.read_exact(buf)
}

/// `Seek::seek` on the wrapped object.
#[verifier::external_body]
pub(crate) fn seek<T: Seek>(inner: &mut T, pos: SeekFrom) -> (result: std::io::Result<u64>) {
    inner.seek(pos)
}

/// `Seek::rewind` on the wrapped object.
#[verifier::external_body]
pub(crate) fn rewind<T: Seek>(inner: &mut T) -> (result: std::io::Result<()>) {
    inner.rewind()
}

/// `Seek::stream_position` on the wrapped object.
#[verifier::external_body]
pub(crate) fn stream_position<T: Seek>(inner: &mut T) -> (result: std::io::Result<u64>) {
    inner.stream_position()
}

/// `Write::write` on the wrapped object.
#[verifier::external_body]
pub(crate) fn write<T: Write>(inner: &mut T, buf: &[u8]) -> (result: std::io::Result<usize>) {
    inner.write(buf)
}

/// `Write::flush` on the wrapped object.
#[verifier::external_body]
pub(crate) fn flush<T: Write>(inner: &mut T) -> (result: std::io::Result<()>) {
    inner.flush()
}

/// `Write::write_vectored` on the wrapped object.
#[verifier::external_body]
pub(crate) fn write_vectored<T: Write>(inner: &mut T, bufs: &[IoSlice<'_>]) -> (result:
    std::io::Result<usize>) {
    inner.write_vectored(bufs)
}

/// `Write::write_all` on the wrapped object.
#[verifier::external_body]
pub(crate) fn write_all<T: Write>(inner: &mut T, buf: &[u8]) -> (result: std::io::Result<()>) {
    inner.write_all(buf)
}

/// `Write::write_fmt` on the wrapped object.
#[verifier::external_body]
pub(crate) fn write_fmt<T: Write>(inner: &mut T, fmt: std::fmt::Arguments<'_>) -> (result:
    std::io::Result<()>) {
    inner.write_fmt(fmt)
}

} // verus!
