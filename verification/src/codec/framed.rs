//! A unified interface to an I/O object together with the codec that frames
//! its bytes, the buffer of bytes read but not yet decoded and the buffer of
//! encoded bytes not yet written.
//!
//! Encoding and decoding are the codec's work and reading and writing are the
//! I/O object's; both happen around this type. What the type itself decides is
//! what happens to its buffers and when the write buffer counts as full.
use vstd::prelude::*;

use crate::buf::{bytes_extend, bytes_len, bytes_new, bytes_split_to, bytes_view};

verus! {

/// Default low watermark of the write buffer.
pub const LW: usize = 1024;

/// Default high watermark of the write buffer.
pub const HW: usize = 8 * 1024;

/// An I/O object and a codec held side by side.
pub struct Fuse<T, U>(pub T, pub U);

/// A unified `Stream` and `Sink` interface to an underlying I/O object, using a
/// codec to encode and decode frames.
pub struct Framed<T, U> {
    inner: Fuse<T, U>,
    read_buf: bytes::BytesMut,
    write_buf: bytes::BytesMut,
    lw: usize,
    hw: usize,
}

/// `FramedParts` contains an export of the data of a `Framed` transport. It can
/// be used to construct a new `Framed` with a different codec. It contains all
/// current buffers and the inner transport.
pub struct FramedParts<T, U> {
    /// The inner transport used to read bytes to and write bytes to
    pub io: T,
    /// The codec
    pub codec: U,
    /// The buffer with read but unprocessed data.
    pub read_buf: bytes::BytesMut,
    /// A buffer with unprocessed data which are not written yet.
    pub write_buf: bytes::BytesMut,
    /// A buffer low watermark capacity
    pub write_buf_lw: usize,
    /// A buffer high watermark capacity
    pub write_buf_hw: usize,
}

impl<T, U> FramedParts<T, U> {
    /// Create a new, default, `FramedParts`
    pub fn new(io: T, codec: U) -> (r: FramedParts<T, U>)
        ensures
            r.io == io,
            r.codec == codec,
            bytes_view(r.read_buf) == Seq::<u8>::empty(),
            bytes_view(r.write_buf) == Seq::<u8>::empty(),
            r.write_buf_lw == LW,
            r.write_buf_hw == HW,
    {
        FramedParts {
            io,
            codec,
            read_buf: bytes_new(),
            write_buf: bytes_new(),
            write_buf_lw: LW,
            write_buf_hw: HW,
        }
    }

    /// Create a new `FramedParts` with read buffer
    pub fn with_read_buf(io: T, codec: U, read_buf: bytes::BytesMut) -> (r: FramedParts<T, U>)
        ensures
            r.io == io,
            r.codec == codec,
            bytes_view(r.read_buf) == bytes_view(read_buf),
            bytes_view(r.write_buf) == Seq::<u8>::empty(),
            r.write_buf_lw == LW,
            r.write_buf_hw == HW,
    {
        FramedParts {
            io,
            codec,
            read_buf,
            write_buf: bytes_new(),
            write_buf_lw: LW,
            write_buf_hw: HW,
        }
    }
}

impl<T, U> Framed<T, U> {
    /// The underlying I/O object.
    pub closed spec fn io(&self) -> T {
        self.inner.0
    }

    /// The codec.
    pub closed spec fn codec(&self) -> U {
        self.inner.1
    }

    /// Bytes read from the I/O object and not yet decoded.
    pub closed spec fn read_bytes(&self) -> Seq<u8> {
        bytes_view(self.read_buf)
    }

    /// Encoded bytes not yet written to the I/O object.
    pub closed spec fn write_bytes(&self) -> Seq<u8> {
        bytes_view(self.write_buf)
    }

    /// The low watermark of the write buffer.
    pub closed spec fn low_watermark(&self) -> usize {
        self.lw
    }

    /// The high watermark of the write buffer: at this many pending bytes the
    /// write buffer counts as full.
    pub closed spec fn high_watermark(&self) -> usize {
        self.hw
    }

    /// The write buffer holds at least as many bytes as the high watermark.
    pub open spec fn is_full_spec(&self) -> bool {
        self.write_bytes().len() >= self.high_watermark()
    }

    /// Layers framing over `inner` with `codec`, empty buffers and the default
    /// watermarks.
    pub fn new(inner: T, codec: U) -> (r: Framed<T, U>)
        ensures
            r.io() == inner,
            r.codec() == codec,
            r.read_bytes() == Seq::<u8>::empty(),
            r.write_bytes() == Seq::<u8>::empty(),
            r.low_watermark() == LW,
            r.high_watermark() == HW,
    {
        Framed { inner: Fuse(inner, codec), read_buf: bytes_new(), write_buf: bytes_new(), lw: LW, hw: HW }
    }

    /// Same as `Framed::new()` with ability to specify write buffer low/high
    /// capacity watermarks. The watermarks must satisfy `lw < hw` (so `hw` is
    /// not zero).
    pub fn new_with_caps(inner: T, codec: U, lw: usize, hw: usize) -> (r: Framed<T, U>)
        requires
            lw < hw,
        ensures
            r.io() == inner,
            r.codec() == codec,
            r.read_bytes() == Seq::<u8>::empty(),
            r.write_bytes() == Seq::<u8>::empty(),
            r.low_watermark() == lw,
            r.high_watermark() == hw,
    {
        Framed { inner: Fuse(inner, codec), read_buf: bytes_new(), write_buf: bytes_new(), lw, hw }
    }

    /// Queues an encoded frame for writing whether or not the write buffer is
    /// full. The frame is the codec's encoding of the item, made by the caller.
    pub fn force_send(&mut self, frame: &[u8])
        requires
            old(self).write_bytes().len() + frame@.len() <= isize::MAX,
        ensures
            final(self).write_bytes() == old(self).write_bytes() + frame@,
            final(self).read_bytes() == old(self).read_bytes(),
            final(self).io() == old(self).io(),
            final(self).codec() == old(self).codec(),
            final(self).low_watermark() == old(self).low_watermark(),
            final(self).high_watermark() == old(self).high_watermark(),
    {
        bytes_extend(&mut self.write_buf, frame);
    }

    /// Builds a `Framed` from the parts of another: the I/O object, the codec,
    /// both buffers and the watermarks.
    pub fn from_parts(parts: FramedParts<T, U>) -> (r: Framed<T, U>)
        ensures
            r.io() == parts.io,
            r.codec() == parts.codec,
            r.read_bytes() == bytes_view(parts.read_buf),
            r.write_bytes() == bytes_view(parts.write_buf),
            r.low_watermark() == parts.write_buf_lw,
            r.high_watermark() == parts.write_buf_hw,
    {
        Framed {
            inner: Fuse(parts.io, parts.codec),
            read_buf: parts.read_buf,
            write_buf: parts.write_buf,
            lw: parts.write_buf_lw,
            hw: parts.write_buf_hw,
        }
    }

    /// Returns a reference to the underlying codec.
    pub fn get_codec(&self) -> (r: &U)
        ensures
            *r == self.codec(),
    {
        &self.inner.1
    }

    /// Returns a mutable reference to the underlying codec.
    pub fn get_codec_mut(&mut self) -> (r: &mut U)
        ensures
            *r == old(self).codec(),
            final(self).codec() == *final(r),
            final(self).io() == old(self).io(),
            final(self).read_bytes() == old(self).read_bytes(),
            final(self).write_bytes() == old(self).write_bytes(),
            final(self).low_watermark() == old(self).low_watermark(),
            final(self).high_watermark() == old(self).high_watermark(),
    {
        &mut self.inner.1
    }

    /// Returns a reference to the underlying I/O stream wrapped by `Framed`.
    pub fn get_ref(&self) -> (r: &T)
        ensures
            *r == self.io(),
    {
        &self.inner.0
    }

    /// Returns a mutable reference to the underlying I/O stream wrapped by
    /// `Framed`.
    pub fn get_mut(&mut self) -> (r: &mut T)
        ensures
            *r == old(self).io(),
            final(self).io() == *final(r),
            final(self).codec() == old(self).codec(),
            final(self).read_bytes() == old(self).read_bytes(),
            final(self).write_bytes() == old(self).write_bytes(),
            final(self).low_watermark() == old(self).low_watermark(),
            final(self).high_watermark() == old(self).high_watermark(),
    {
        &mut self.inner.0
    }

    /// Check if write buffer is empty.
    pub fn is_write_buf_empty(&self) -> (r: bool)
        ensures
            r == (self.write_bytes().len() == 0),
    {
        bytes_len(&self.write_buf) == 0
    }

    /// Check if write buffer is full: it holds at least as many bytes as the
    /// high watermark.
    pub fn is_write_buf_full(&self) -> (r: bool)
        ensures
            r == (self.write_bytes().len() >= self.high_watermark()),
    {
        bytes_len(&self.write_buf) >= self.hw
    }

    /// Consumes the `Framed`, returning its underlying I/O stream.
    pub fn into_inner(self) -> (r: T)
        ensures
            r == self.io(),
    {
        self.inner.0
    }

    /// Consume the `Framed`, returning `Framed` with different codec; the I/O
    /// object, both buffers and the watermarks carry over.
    pub fn into_framed<U2>(self, codec: U2) -> (r: Framed<T, U2>)
        ensures
            r.io() == self.io(),
            r.codec() == codec,
            r.read_bytes() == self.read_bytes(),
            r.write_bytes() == self.write_bytes(),
            r.low_watermark() == self.low_watermark(),
            r.high_watermark() == self.high_watermark(),
    {
        Framed {
            inner: Fuse(self.inner.0, codec),
            read_buf: self.read_buf,
            write_buf: self.write_buf,
            lw: self.lw,
            hw: self.hw,
        }
    }

    /// Consume the `Framed`, returning `Framed` with the I/O object that `f`
    /// makes of the current one.
    pub fn map_io<F, T2>(self, f: F) -> (r: Framed<T2, U>) where F: Fn(T) -> T2
        requires
            f.requires((self.io(),)),
        ensures
            f.ensures((self.io(),), r.io()),
            r.codec() == self.codec(),
            r.read_bytes() == self.read_bytes(),
            r.write_bytes() == self.write_bytes(),
            r.low_watermark() == self.low_watermark(),
            r.high_watermark() == self.high_watermark(),
    {
        let Fuse(io, codec) = self.inner;
        Framed { inner: Fuse(f(io), codec), read_buf: self.read_buf, write_buf: self.write_buf, lw: self.lw, hw: self.hw }
    }

    /// Consume the `Framed`, returning `Framed` with the codec that `f` makes
    /// of the current one.
    pub fn map_codec<F, U2>(self, f: F) -> (r: Framed<T, U2>) where F: Fn(U) -> U2
        requires
            f.requires((self.codec(),)),
        ensures
            f.ensures((self.codec(),), r.codec()),
            r.io() == self.io(),
            r.read_bytes() == self.read_bytes(),
            r.write_bytes() == self.write_bytes(),
            r.low_watermark() == self.low_watermark(),
            r.high_watermark() == self.high_watermark(),
    {
        let Fuse(io, codec) = self.inner;
        Framed { inner: Fuse(io, f(codec)), read_buf: self.read_buf, write_buf: self.write_buf, lw: self.lw, hw: self.hw }
    }

    /// Consumes the `Framed`, returning its underlying I/O stream, the buffers
    /// with unprocessed data, the codec and the watermarks.
    pub fn into_parts(self) -> (r: FramedParts<T, U>)
        ensures
            r.io == self.io(),
            r.codec == self.codec(),
            bytes_view(r.read_buf) == self.read_bytes(),
            bytes_view(r.write_buf) == self.write_bytes(),
            r.write_buf_lw == self.low_watermark(),
            r.write_buf_hw == self.high_watermark(),
    {
        FramedParts {
            io: self.inner.0,
            codec: self.inner.1,
            read_buf: self.read_buf,
            write_buf: self.write_buf,
            write_buf_lw: self.lw,
            write_buf_hw: self.hw,
        }
    }

    /// The encoded bytes waiting to be written, for the writer to hand to the
    /// I/O object.
    pub fn write_buf(&self) -> (r: &bytes::BytesMut)
        ensures
            bytes_view(*r) == self.write_bytes(),
    {
        &self.write_buf
    }

    /// Records that the I/O object has accepted the first `n` pending bytes:
    /// they leave the write buffer.
    pub fn consume_written(&mut self, n: usize)
        requires
            n <= old(self).write_bytes().len(),
        ensures
            final(self).write_bytes() == old(self).write_bytes().subrange(n as int, old(self).write_bytes().len() as int),
            final(self).read_bytes() == old(self).read_bytes(),
            final(self).io() == old(self).io(),
            final(self).codec() == old(self).codec(),
            final(self).low_watermark() == old(self).low_watermark(),
            final(self).high_watermark() == old(self).high_watermark(),
    {
        let _written = bytes_split_to(&mut self.write_buf, n);
    }

    /// Appends bytes just read from the I/O object to the read buffer.
    pub fn fill_read_buf(&mut self, data: &[u8])
        requires
            old(self).read_bytes().len() + data@.len() <= isize::MAX,
        ensures
            final(self).read_bytes() == old(self).read_bytes() + data@,
            final(self).write_bytes() == old(self).write_bytes(),
            final(self).io() == old(self).io(),
            final(self).codec() == old(self).codec(),
            final(self).low_watermark() == old(self).low_watermark(),
            final(self).high_watermark() == old(self).high_watermark(),
    {
        bytes_extend(&mut self.read_buf, data);
    }

    /// The codec and the read buffer together, for the codec to decode frames
    /// out of the buffer. Whatever the codec leaves in the buffer stays there.
    pub fn codec_and_read_buf_mut(&mut self) -> (r: (&mut U, &mut bytes::BytesMut))
        ensures
            *r.0 == old(self).codec(),
            bytes_view(*r.1) == old(self).read_bytes(),
            final(self).codec() == *final(r.0),
            final(self).read_bytes() == bytes_view(*final(r.1)),
            final(self).io() == old(self).io(),
            final(self).write_bytes() == old(self).write_bytes(),
            final(self).low_watermark() == old(self).low_watermark(),
            final(self).high_watermark() == old(self).high_watermark(),
    {
        (&mut self.inner.1, &mut self.read_buf)
    }
}

/// Taking a `Framed` apart and putting it back together changes nothing: the
/// I/O object, the codec, both buffers and the watermarks survive.
pub proof fn parts_round_trip<T, U>(f: Framed<T, U>, parts: FramedParts<T, U>, g: Framed<T, U>)
    requires
        parts.io == f.io(),
        parts.codec == f.codec(),
        bytes_view(parts.read_buf) == f.read_bytes(),
        bytes_view(parts.write_buf) == f.write_bytes(),
        parts.write_buf_lw == f.low_watermark(),
        parts.write_buf_hw == f.high_watermark(),
        g.io() == parts.io,
        g.codec() == parts.codec,
        g.read_bytes() == bytes_view(parts.read_buf),
        g.write_bytes() == bytes_view(parts.write_buf),
        g.low_watermark() == parts.write_buf_lw,
        g.high_watermark() == parts.write_buf_hw,
    ensures
        g.io() == f.io(),
        g.codec() == f.codec(),
        g.read_bytes() == f.read_bytes(),
        g.write_bytes() == f.write_bytes(),
        g.is_full_spec() == f.is_full_spec(),
{
}

} // verus!
