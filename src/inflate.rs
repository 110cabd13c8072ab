use vstd::prelude::*;
use std::io::Read;
use flate2::read::{DeflateDecoder, GzDecoder, ZlibDecoder};

verus! {

/// flate2's zlib decoder, carried as an opaque value.
#[verifier::external_type_specification]
#[verifier::external_body]
#[verifier::reject_recursive_types(R)]
pub struct ExZlibDecoder<R>(ZlibDecoder<R>);

/// flate2's gzip decoder, carried as an opaque value.
#[verifier::external_type_specification]
#[verifier::external_body]
#[verifier::reject_recursive_types(R)]
pub struct ExGzDecoder<R>(GzDecoder<R>);

/// flate2's raw deflate decoder, carried as an opaque value.
#[verifier::external_type_specification]
#[verifier::external_body]
#[verifier::reject_recursive_types(R)]
pub struct ExDeflateDecoder<R>(DeflateDecoder<R>);

/// The error of a failed read, carried as an opaque value.
#[verifier::external_type_specification]
#[verifier::external_body]
pub struct ExIoError(std::io::Error);

/// What flate2's `ZlibDecoder` delivers when read to its end over `input`:
/// `Some(bytes)` when the stream ends cleanly, `None` when a read fails. It
/// does not depend on the sizes of the buffers read into.
pub uninterp spec fn zlib_decoded(input: Seq<u8>) -> Option<Seq<u8>>;

/// What flate2's `GzDecoder` delivers when read to its end over `input`: the
/// first member's bytes when its trailer matches, `None` when a read fails.
pub uninterp spec fn gzip_decoded(input: Seq<u8>) -> Option<Seq<u8>>;

/// What flate2's `DeflateDecoder` delivers when read to its end over `input`:
/// `Some(bytes)` when the stream ends cleanly, `None` when a read fails.
pub uninterp spec fn deflate_decoded(input: Seq<u8>) -> Option<Seq<u8>>;

/// The wrapping of a compressed stream.
#[derive(Clone, Copy, Debug, PartialEq, Eq, Structural)]
pub enum Format {
    Zlib,
    Gzip,
    RawDeflate,
}

/// The format that a stream beginning with `first` is taken to have.
pub open spec fn format_of(first: u8) -> Format {
    if first == 0x78 {
        Format::Zlib
    } else if first == 0x1f {
        Format::Gzip
    } else {
        Format::RawDeflate
    }
}

/// What decoding `input` in `format` delivers, if it succeeds.
pub open spec fn decoded(format: Format, input: Seq<u8>) -> Option<Seq<u8>> {
    match format {
        Format::Zlib => zlib_decoded(input),
        Format::Gzip => gzip_decoded(input),
        Format::RawDeflate => deflate_decoded(input),
    }
}

/// Picks the format from the first byte of a compressed stream: `0x78` is
/// zlib, `0x1F` is gzip, anything else is taken as raw deflate.
pub fn detect_format(first: u8) -> (r: Format)
    ensures
        r == format_of(first),
{
    if first == 0x78 {
        Format::Zlib
    } else if first == 0x1f {
        Format::Gzip
    } else {
        Format::RawDeflate
    }
}

/// What one read of a decoder did, given all that the stream decodes to
/// (`full`): `Ok(n)` hands out the next `n` bytes, `Ok(0)` comes only once
/// everything was handed out, an error only where the stream is bad.
pub open spec fn read_step(
    full: Option<Seq<u8>>,
    before: Seq<u8>,
    after: Seq<u8>,
    buf: Seq<u8>,
    r: Result<usize, std::io::Error>,
) -> bool {
    match r {
        Ok(n) => {
            &&& n <= buf.len()
            &&& after == before + buf.subrange(0, n as int)
            &&& n == 0 ==> full == Some(before)
            &&& n > 0 ==> full is Some ==> after.is_prefix_of(full->0)
        },
        Err(_) => full is None,
    }
}

/// flate2's zlib decoder over a borrowed stream, with what it has handed out.
pub struct ZlibStream<'a> {
    decoder: ZlibDecoder<&'a [u8]>,
    input: Ghost<Seq<u8>>,
    produced: Ghost<Seq<u8>>,
    failed: Ghost<bool>,
}

/// flate2's gzip decoder over a borrowed stream, with what it has handed out.
pub struct GzipStream<'a> {
    decoder: GzDecoder<&'a [u8]>,
    input: Ghost<Seq<u8>>,
    produced: Ghost<Seq<u8>>,
    failed: Ghost<bool>,
}

/// flate2's raw deflate decoder over a borrowed stream, with what it has
/// handed out.
pub struct DeflateStream<'a> {
    decoder: DeflateDecoder<&'a [u8]>,
    input: Ghost<Seq<u8>>,
    produced: Ghost<Seq<u8>>,
    failed: Ghost<bool>,
}

/// Relies on flate2's `ZlibDecoder::new`, which only stores its reader.
#[verifier::external_body]
fn open_zlib<'a>(input: &'a [u8]) -> (r: ZlibDecoder<&'a [u8]>) {
    ZlibDecoder::new(input)
}

/// Relies on flate2's `GzDecoder::new`, which parses the header at once and
/// keeps any error for the first read.
#[verifier::external_body]
fn open_gzip<'a>(input: &'a [u8]) -> (r: GzDecoder<&'a [u8]>) {
    GzDecoder::new(input)
}

/// Relies on flate2's `DeflateDecoder::new`, which only stores its reader.
#[verifier::external_body]
fn open_deflate<'a>(input: &'a [u8]) -> (r: DeflateDecoder<&'a [u8]>) {
    DeflateDecoder::new(input)
}

impl<'a> ZlibStream<'a> {
    /// Relies on `Read::read` of flate2's `ZlibDecoder` over a byte slice: with
    /// a non-empty buffer and no earlier error, `Ok(0)` comes only once the
    /// stream has ended, `Ok(n)` puts the next `n` decoded bytes at the front
    /// of `buf`, and an error comes only from a corrupt or truncated stream.
    #[verifier::external_body]
    fn read(&mut self, buf: &mut [u8]) -> (r: Result<usize, std::io::Error>)
        requires
            old(buf)@.len() > 0,
            !old(self).failed@,
        ensures
            final(self).input == old(self).input,
            final(self).failed@ == r is Err,
            final(buf)@.len() == old(buf)@.len(),
            read_step(
                zlib_decoded(old(self).input@),
                old(self).produced@,
                final(self).produced@,
                final(buf)@,
                r,
            ),
    {
        self.decoder.read(buf)
    }
}

impl<'a> GzipStream<'a> {
    /// Relies on `Read::read` of flate2's `GzDecoder` over a byte slice: with a
    /// non-empty buffer and no earlier error (after one it answers `Ok(0)`),
    /// `Ok(0)` comes only at the end of the first member once
    /// its CRC and length matched, `Ok(n)` puts the next `n` decoded bytes at
    /// the front of `buf`, and an error comes only from a bad header, a corrupt
    /// or truncated stream, or a bad trailer.
    #[verifier::external_body]
    fn read(&mut self, buf: &mut [u8]) -> (r: Result<usize, std::io::Error>)
        requires
            old(buf)@.len() > 0,
            !old(self).failed@,
        ensures
            final(self).input == old(self).input,
            final(self).failed@ == r is Err,
            final(buf)@.len() == old(buf)@.len(),
            read_step(
                gzip_decoded(old(self).input@),
                old(self).produced@,
                final(self).produced@,
                final(buf)@,
                r,
            ),
    {
        self.decoder.read(buf)
    }
}

impl<'a> DeflateStream<'a> {
    /// Relies on `Read::read` of flate2's `DeflateDecoder` over a byte slice:
    /// with a non-empty buffer and no earlier error, `Ok(0)` comes only at the
    /// end of the stream,
    /// `Ok(n)` puts the next `n` decoded bytes at the front of `buf`, and an
    /// error comes only from a corrupt or truncated stream.
    #[verifier::external_body]
    fn read(&mut self, buf: &mut [u8]) -> (r: Result<usize, std::io::Error>)
        requires
            old(buf)@.len() > 0,
            !old(self).failed@,
        ensures
            final(self).input == old(self).input,
            final(self).failed@ == r is Err,
            final(buf)@.len() == old(buf)@.len(),
            read_step(
                deflate_decoded(old(self).input@),
                old(self).produced@,
                final(self).produced@,
                final(buf)@,
                r,
            ),
    {
        self.decoder.read(buf)
    }
}

/// A decoder over a borrowed compressed stream, of one of the three formats,
/// chosen once.
pub enum Inflater<'a> {
    Zlib(ZlibStream<'a>),
    Gzip(GzipStream<'a>),
    Raw(DeflateStream<'a>),
}

impl<'a> Inflater<'a> {
    pub closed spec fn format(&self) -> Format {
        match self {
            Inflater::Zlib(_) => Format::Zlib,
            Inflater::Gzip(_) => Format::Gzip,
            Inflater::Raw(_) => Format::RawDeflate,
        }
    }

    /// The compressed bytes being read.
    pub closed spec fn source(&self) -> Seq<u8> {
        match self {
            Inflater::Zlib(s) => s.input@,
            Inflater::Gzip(s) => s.input@,
            Inflater::Raw(s) => s.input@,
        }
    }

    /// The decompressed bytes handed out so far.
    pub closed spec fn output(&self) -> Seq<u8> {
        match self {
            Inflater::Zlib(s) => s.produced@,
            Inflater::Gzip(s) => s.produced@,
            Inflater::Raw(s) => s.produced@,
        }
    }

    /// Whether a read has failed; the decoder is not to be read again then.
    pub closed spec fn failed(&self) -> bool {
        match self {
            Inflater::Zlib(s) => s.failed@,
            Inflater::Gzip(s) => s.failed@,
            Inflater::Raw(s) => s.failed@,
        }
    }

    /// A decoder for `input` read as `format`, which has handed out nothing.
    pub fn new(format: Format, input: &'a [u8]) -> (r: Self)
        ensures
            r.format() == format,
            r.source() == input@,
            r.output() == Seq::<u8>::empty(),
            !r.failed(),
    {
        match format {
            Format::Zlib => Inflater::Zlib(
                ZlibStream {
                    decoder: open_zlib(input),
                    input: Ghost(input@),
                    produced: Ghost(Seq::empty()),
                    failed: Ghost(false),
                },
            ),
            Format::Gzip => Inflater::Gzip(
                GzipStream {
                    decoder: open_gzip(input),
                    input: Ghost(input@),
                    produced: Ghost(Seq::empty()),
                    failed: Ghost(false),
                },
            ),
            Format::RawDeflate => Inflater::Raw(
                DeflateStream {
                    decoder: open_deflate(input),
                    input: Ghost(input@),
                    produced: Ghost(Seq::empty()),
                    failed: Ghost(false),
                },
            ),
        }
    }

    /// Decodes up to `buf.len()` further bytes into the front of `buf`.
    /// `Ok(0)` means the stream has ended and everything it decodes to was
    /// handed out; an error means the stream does not decode, and ends the
    /// use of the decoder.
    pub fn read_chunk(&mut self, buf: &mut [u8]) -> (r: Result<usize, std::io::Error>)
        requires
            old(buf)@.len() > 0,
            !old(self).failed(),
        ensures
            final(self).format() == old(self).format(),
            final(self).failed() == r is Err,
            final(self).source() == old(self).source(),
            final(buf)@.len() == old(buf)@.len(),
            read_step(
                decoded(old(self).format(), old(self).source()),
                old(self).output(),
                final(self).output(),
                final(buf)@,
                r,
            ),
    {
        match self {
            Inflater::Zlib(s) => s.read(buf),
            Inflater::Gzip(s) => s.read(buf),
            Inflater::Raw(s) => s.read(buf),
        }
    }
}

} // verus!
