use crate::token::CancellationToken;
use vstd::prelude::*;

verus! {

/// An I/O value that consults a token before each operation that may block.
pub struct Cancellable<T> {
    inner: T,
    token: CancellationToken,
}

impl<T> Cancellable<T> {
    /// The wrapped value.
    pub closed spec fn inner_value(&self) -> T {
        self.inner
    }

    /// The token that this wrapper consults.
    pub closed spec fn token_value(&self) -> CancellationToken {
        self.token
    }

    /// Wraps `inner`, to be cancelled through `token` or any clone of it.
    pub fn new(inner: T, token: CancellationToken) -> (r: Cancellable<T>)
        ensures
            r.inner_value() == inner,
            r.token_value() == token,
    {
        Cancellable { inner, token }
    }

    /// The token that this wrapper consults.
    pub fn token(&self) -> (r: &CancellationToken)
        ensures
            *r == self.token_value(),
    {
        &self.token
    }

    /// Gives the wrapped value back.
    pub fn into_inner(self) -> (r: T)
        ensures
            r == self.inner_value(),
    {
        self.inner
    }

    /// The wrapped value, for operations that this wrapper does not cover.
    pub fn get_ref(&self) -> (r: &T)
        ensures
            *r == self.inner_value(),
    {
        &self.inner
    }

    /// The wrapped value, mutably, for operations that this wrapper does not
    /// cover.
    pub fn get_mut(&mut self) -> (r: &mut T)
        ensures
            *r == old(self).inner_value(),
            *final(r) == final(self).inner_value(),
            final(self).token_value() == old(self).token_value(),
    {
        &mut self.inner
    }
}

#[verifier::external_type_specification]
#[verifier::external_body]
pub struct ExIoSliceMut<'a>(std::io::IoSliceMut<'a>);

#[verifier::external_type_specification]
#[verifier::external_body]
pub struct ExIoSlice<'a>(std::io::IoSlice<'a>);

#[verifier::external_type_specification]
#[verifier::external_body]
pub struct ExArguments<'a>(std::fmt::Arguments<'a>);

#[verifier::external_type_specification]
#[verifier::external_body]
pub struct ExSeekFrom(std::io::SeekFrom);

impl<T> Cancellable<T> {
    /// The checkpoint in front of every gated operation. `checked` is what
    /// the token's check returned. If it is an error, that error is returned
    /// and `op` does not run: the wrapped value stays as it was and `arg` is
    /// handed back to nobody, so a buffer passed in it is left untouched.
    /// Otherwise the result is exactly what `op` returns on the wrapped value
    /// and `arg`, and the wrapped value is what `op` left.
    pub fn gated<'a, A, R, F: FnOnce(&'a mut T, A) -> std::io::Result<R>>(
        &'a mut self,
        checked: std::io::Result<()>,
        arg: A,
        op: F,
    ) -> (r: std::io::Result<R>)
        requires
            forall|t: &'a mut T, a: A| op.requires((t, a)),
        ensures
            final(self).token_value() == old(self).token_value(),
            checked is Err ==> {
                &&& r is Err
                &&& r->Err_0 == checked->Err_0
                &&& *final(self) == *old(self)
                &&& has_resolved(arg)
            },
            checked is Ok ==> exists|t: &'a mut T|
                {
                    &&& *t == old(self).inner_value()
                    &&& *final(t) == final(self).inner_value()
                    &&& #[trigger] op.ensures((t, arg), r)
                },
    {
        match checked {
            Err(e) => Err(e),
            Ok(()) => op(&mut self.inner, arg),
        }
    }
}

/// Relies on `Read::read` of the wrapped value, which alone decides the outcome.
#[verifier::external_body]
fn inner_read<T: std::io::Read>(inner: &mut T, buf: &mut [u8]) -> (r: std::io::Result<usize>) {
    inner.read(buf)
}

/// Relies on `Read::read_vectored` of the wrapped value, which alone decides the outcome.
#[verifier::external_body]
fn inner_read_vectored<T: std::io::Read>(inner: &mut T, bufs: &mut [std::io::IoSliceMut<'_>]) -> (r: std::io::Result<usize>) {
    inner.read_vectored(bufs)
}

/// Relies on `Read::read_to_end` of the wrapped value, which alone decides the outcome.
#[verifier::external_body]
fn inner_read_to_end<T: std::io::Read>(inner: &mut T, buf: &mut Vec<u8>) -> (r: std::io::Result<usize>) {
    inner.read_to_end(buf)
}

/// Relies on `Read::read_to_string` of the wrapped value, which alone decides the outcome.
#[verifier::external_body]
fn inner_read_to_string<T: std::io::Read>(inner: &mut T, buf: &mut String) -> (r: std::io::Result<usize>) {
    inner.read_to_string(buf)
}

/// Relies on `Read::read_exact` of the wrapped value, which alone decides the outcome.
#[verifier::external_body]
fn inner_read_exact<T: std::io::Read>(inner: &mut T, buf: &mut [u8]) -> (r: std::io::Result<()>) {
    inner.read_exact(buf)
}

/// Relies on `Write::write` of the wrapped value, which alone decides the outcome.
#[verifier::external_body]
fn inner_write<T: std::io::Write>(inner: &mut T, buf: &[u8]) -> (r: std::io::Result<usize>) {
    inner.write(buf)
}

/// Relies on `Write::flush` of the wrapped value, which alone decides the outcome.
#[verifier::external_body]
fn inner_flush<T: std::io::Write>(inner: &mut T) -> (r: std::io::Result<()>) {
    inner.flush()
}

/// Relies on `Write::write_vectored` of the wrapped value, which alone decides the outcome.
#[verifier::external_body]
fn inner_write_vectored<T: std::io::Write>(inner: &mut T, bufs: &[std::io::IoSlice<'_>]) -> (r: std::io::Result<usize>) {
    inner.write_vectored(bufs)
}

/// Relies on `Write::write_all` of the wrapped value, which alone decides the outcome.
#[verifier::external_body]
fn inner_write_all<T: std::io::Write>(inner: &mut T, buf: &[u8]) -> (r: std::io::Result<()>) {
    inner.write_all(buf)
}

/// Relies on `Write::write_fmt` of the wrapped value, which alone decides the
/// outcome. std's provided `write_fmt` panics when a formatting impl reports
/// an error that the stream did not; a caller that formats through such an
/// impl meets that panic here as it would on the wrapped value.
#[verifier::external_body]
fn inner_write_fmt<T: std::io::Write>(inner: &mut T, fmt: std::fmt::Arguments<'_>) -> (r: std::io::Result<()>) {
    inner.write_fmt(fmt)
}

/// Relies on `Seek::seek` of the wrapped value, which alone decides the outcome.
#[verifier::external_body]
fn inner_seek<T: std::io::Seek>(inner: &mut T, pos: std::io::SeekFrom) -> (r: std::io::Result<u64>) {
    inner.seek(pos)
}

/// Relies on `Seek::rewind` of the wrapped value, which alone decides the outcome.
#[verifier::external_body]
fn inner_rewind<T: std::io::Seek>(inner: &mut T) -> (r: std::io::Result<()>) {
    inner.rewind()
}

/// Relies on `Seek::stream_position` of the wrapped value, which alone decides the outcome.
#[verifier::external_body]
fn inner_stream_position<T: std::io::Seek>(inner: &mut T) -> (r: std::io::Result<u64>) {
    inner.stream_position()
}

/// Relies on `Seek::seek_relative` of the wrapped value, which alone decides the outcome.
#[verifier::external_body]
fn inner_seek_relative<T: std::io::Seek>(inner: &mut T, offset: i64) -> (r: std::io::Result<()>) {
    inner.seek_relative(offset)
}

/// Relies on `BufRead::fill_buf` of the wrapped value, which alone decides the outcome.
#[verifier::external_body]
fn inner_fill_buf<T: std::io::BufRead>(inner: &mut T) -> (r: std::io::Result<&[u8]>) {
    inner.fill_buf()
}

impl<T: std::io::Read> std::io::Read for Cancellable<T> {
    fn read(&mut self, buf: &mut [u8]) -> (r: std::io::Result<usize>)
        ensures
            final(self).token_value() == old(self).token_value(),
    {
        let checked = self.token.check();
        self.gated(checked, buf, |t: &mut T, buf: &mut [u8]| inner_read(t, buf))
    }

    fn read_vectored(&mut self, bufs: &mut [std::io::IoSliceMut<'_>]) -> (r: std::io::Result<usize>)
        ensures
            final(self).token_value() == old(self).token_value(),
    {
        let checked = self.token.check();
        self.gated(checked, bufs, |t: &mut T, bufs: &mut [std::io::IoSliceMut<'_>]| inner_read_vectored(t, bufs))
    }

    fn read_to_end(&mut self, buf: &mut Vec<u8>) -> (r: std::io::Result<usize>)
        ensures
            final(self).token_value() == old(self).token_value(),
    {
        let checked = self.token.check();
        self.gated(checked, buf, |t: &mut T, buf: &mut Vec<u8>| inner_read_to_end(t, buf))
    }

    fn read_to_string(&mut self, buf: &mut String) -> (r: std::io::Result<usize>)
        ensures
            final(self).token_value() == old(self).token_value(),
    {
        let checked = self.token.check();
        self.gated(checked, buf, |t: &mut T, buf: &mut String| inner_read_to_string(t, buf))
    }

    fn read_exact(&mut self, buf: &mut [u8]) -> (r: std::io::Result<()>)
        ensures
            final(self).token_value() == old(self).token_value(),
    {
        let checked = self.token.check();
        self.gated(checked, buf, |t: &mut T, buf: &mut [u8]| inner_read_exact(t, buf))
    }
}

impl<T: std::io::Write> std::io::Write for Cancellable<T> {
    fn write(&mut self, buf: &[u8]) -> (r: std::io::Result<usize>)
        ensures
            final(self).token_value() == old(self).token_value(),
    {
        let checked = self.token.check();
        self.gated(checked, buf, |t: &mut T, buf: &[u8]| inner_write(t, buf))
    }

    fn flush(&mut self) -> (r: std::io::Result<()>)
        ensures
            final(self).token_value() == old(self).token_value(),
    {
        let checked = self.token.check();
        self.gated(checked, (), |t: &mut T, u: ()| inner_flush(t))
    }

    fn write_vectored(&mut self, bufs: &[std::io::IoSlice<'_>]) -> (r: std::io::Result<usize>)
        ensures
            final(self).token_value() == old(self).token_value(),
    {
        let checked = self.token.check();
        self.gated(checked, bufs, |t: &mut T, bufs: &[std::io::IoSlice<'_>]| inner_write_vectored(t, bufs))
    }

    fn write_all(&mut self, buf: &[u8]) -> (r: std::io::Result<()>)
        ensures
            final(self).token_value() == old(self).token_value(),
    {
        let checked = self.token.check();
        self.gated(checked, buf, |t: &mut T, buf: &[u8]| inner_write_all(t, buf))
    }

    fn write_fmt(&mut self, fmt: std::fmt::Arguments<'_>) -> (r: std::io::Result<()>)
        ensures
            final(self).token_value() == old(self).token_value(),
    {
        let checked = self.token.check();
        self.gated(checked, fmt, |t: &mut T, fmt: std::fmt::Arguments<'_>| inner_write_fmt(t, fmt))
    }
}

impl<T: std::io::Seek> std::io::Seek for Cancellable<T> {
    fn seek(&mut self, pos: std::io::SeekFrom) -> (r: std::io::Result<u64>)
        ensures
            final(self).token_value() == old(self).token_value(),
    {
        let checked = self.token.check();
        self.gated(checked, pos, |t: &mut T, pos: std::io::SeekFrom| inner_seek(t, pos))
    }

    fn rewind(&mut self) -> (r: std::io::Result<()>)
        ensures
            final(self).token_value() == old(self).token_value(),
    {
        let checked = self.token.check();
        self.gated(checked, (), |t: &mut T, u: ()| inner_rewind(t))
    }

    fn stream_position(&mut self) -> (r: std::io::Result<u64>)
        ensures
            final(self).token_value() == old(self).token_value(),
    {
        let checked = self.token.check();
        self.gated(checked, (), |t: &mut T, u: ()| inner_stream_position(t))
    }

    fn seek_relative(&mut self, offset: i64) -> (r: std::io::Result<()>)
        ensures
            final(self).token_value() == old(self).token_value(),
    {
        let checked = self.token.check();
        self.gated(checked, offset, |t: &mut T, offset: i64| inner_seek_relative(t, offset))
    }
}

/// Relies on `BufRead::consume` of the wrapped value.
#[verifier::external_body]
fn inner_consume<T: std::io::BufRead>(inner: &mut T, amt: usize) {
    inner.consume(amt)
}

impl<T: std::io::BufRead> std::io::BufRead for Cancellable<T> {
    fn fill_buf(&mut self) -> (r: std::io::Result<&[u8]>)
        ensures
            final(self).token_value() == old(self).token_value(),
    {
        let checked = self.token.check();
        self.gated(checked, (), |t: &mut T, u: ()| inner_fill_buf(t))
    }

    /// Not gated: it only moves past data already buffered, and neither
    /// blocks nor fails.
    fn consume(&mut self, amt: usize)
        ensures
            final(self).token_value() == old(self).token_value(),
    {
        inner_consume(&mut self.inner, amt)
    }
}

} // verus!
