use vstd::prelude::*;
use crate::container::{ChangeEvent, TextContainer};
use crate::inflate::{decoded, detect_format, format_of, Inflater};

verus! {

/// The most decompressed bytes produced per step, and the free room the
/// container must have before each step.
pub const CHUNK_SIZE: usize = 16 * 1024;

/// Why a region could not be worked on at all.
#[derive(Clone, Copy, Debug, PartialEq, Eq, Structural)]
pub enum RegionError {
    /// A bound of the region lies past the end of the container.
    OutOfRange,
    /// The container holds wide characters, not bytes.
    Multibyte,
    /// The caller asked to quit while the region was being decompressed.
    Quit,
}

/// Decompression is always available.
pub fn zlib_available_p() -> (r: bool)
    ensures
        r,
{
    true
}

/// The smaller of two bounds.
pub open spec fn lower(a: usize, b: usize) -> usize {
    if a <= b {
        a
    } else {
        b
    }
}

/// The larger of two bounds.
pub open spec fn upper(a: usize, b: usize) -> usize {
    if a <= b {
        b
    } else {
        a
    }
}

/// `text` with `[start, end)` replaced by `out`.
pub open spec fn replaced(text: Seq<u8>, start: int, end: int, out: Seq<u8>) -> Seq<u8> {
    text.subrange(0, start) + out + text.subrange(end, text.len() as int)
}

/// Whether a container of `len` bytes has room for `out_len` more bytes and
/// one more chunk after them.
pub open spec fn fits(len: nat, out_len: nat) -> bool {
    len + out_len + CHUNK_SIZE <= usize::MAX
}

/// Orders the bounds of a region and checks that it lies in the container.
pub fn validate_region(buf: &TextContainer, start: usize, end: usize) -> (r: Result<
    (usize, usize),
    RegionError,
>)
    ensures
        r is Ok <==> upper(start, end) <= buf.content().len(),
        r is Ok ==> r->Ok_0 == (lower(start, end), upper(start, end)),
        r is Err ==> r->Err_0 == RegionError::OutOfRange,
{
    let (s, e) = if start <= end {
        (start, end)
    } else {
        (end, start)
    };
    if e > buf.len() {
        Err(RegionError::OutOfRange)
    } else {
        Ok((s, e))
    }
}

/// A copy of the bytes of `[start, end)`.
fn copy_range(bytes: &[u8], start: usize, end: usize) -> (r: Vec<u8>)
    requires
        start <= end <= bytes@.len(),
    ensures
        r@ == bytes@.subrange(start as int, end as int),
{
    let mut r: Vec<u8> = Vec::new();
    let mut i: usize = start;
    while i < end
        invariant
            start <= i <= end <= bytes@.len(),
            r@ == bytes@.subrange(start as int, i as int),
        decreases end - i,
    {
        r.push(bytes[i]);
        assert(bytes@.subrange(start as int, i + 1) == bytes@.subrange(start as int, i as int).push(
            bytes@[i as int],
        ));
        i = i + 1;
    }
    r
}

/// `text` with `out` inserted at `at`.
spec fn appended(text: Seq<u8>, at: usize, out: Seq<u8>) -> Seq<u8> {
    text.subrange(0, at as int) + out + text.subrange(at as int, text.len() as int)
}

/// Completes a decompression whose output was appended after `[start, end)`:
/// removes the compressed bytes and reports the whole edit.
fn commit(
    buf: &mut TextContainer,
    start: usize,
    end: usize,
    total: usize,
    Ghost(pre): Ghost<Seq<u8>>,
    Ghost(out): Ghost<Seq<u8>>,
)
    requires
        old(buf).wf(),
        start < end <= pre.len(),
        out.len() == total,
        old(buf).content() == appended(pre, end, out),
        old(buf).cursor() == end + total,
    ensures
        final(buf).wf(),
        final(buf).content() == replaced(pre, start as int, end as int, out),
        final(buf).cursor() == start + total,
        final(buf).wide() == old(buf).wide(),
        final(buf).log() == old(buf).log().push(
            ChangeEvent::AfterChange { start, deleted: (end - start) as usize, inserted: total },
        ).push(ChangeEvent::Refresh { start, end: start }),
{
    buf.delete_range(start, end);
    assert(buf.content() =~= replaced(pre, start as int, end as int, out));
    buf.notify(ChangeEvent::AfterChange { start, deleted: end - start, inserted: total });
    buf.notify(ChangeEvent::Refresh { start, end: start });
}

/// Undoes a decompression that failed after `total` bytes were appended
/// after `[start, end)`: removes them quietly, puts the cursor back and
/// balances the earlier announcement of the edit.
fn roll_back(
    buf: &mut TextContainer,
    start: usize,
    end: usize,
    total: usize,
    old_point: usize,
    Ghost(pre): Ghost<Seq<u8>>,
    Ghost(out): Ghost<Seq<u8>>,
)
    requires
        old(buf).wf(),
        start < end <= pre.len(),
        old_point <= pre.len(),
        out.len() == total,
        old(buf).content() == appended(pre, end, out),
        old(buf).cursor() == end + total,
    ensures
        final(buf).wf(),
        final(buf).content() == pre,
        final(buf).cursor() == old_point,
        final(buf).wide() == old(buf).wide(),
        final(buf).log() == old(buf).log().push(ChangeEvent::Refresh { start: end, end }).push(
            ChangeEvent::AfterChange {
                start,
                deleted: (end - start) as usize,
                inserted: (end - start) as usize,
            },
        ),
{
    let len0 = buf.len();
    assert(end + total <= len0);
    buf.delete_range(end, end + total);
    assert(buf.content() =~= pre);
    buf.notify(ChangeEvent::Refresh { start: end, end });
    buf.notify(ChangeEvent::AfterChange { start, deleted: end - start, inserted: end - start });
    let len = buf.len();
    let pos = if old_point <= len {
        old_point
    } else {
        len
    };
    buf.set_point(pos);
}

/// `after` holds the same bytes, cursor and change log as `before`.
pub open spec fn untouched(before: TextContainer, after: TextContainer) -> bool {
    &&& after.content() == before.content()
    &&& after.cursor() == before.cursor()
    &&& after.log() == before.log()
}

/// `after` is `before` with `[s, e)` replaced by `out`, the cursor just past
/// `out`, and the edit announced and reported once, as a whole.
pub open spec fn replaced_by(
    before: TextContainer,
    after: TextContainer,
    s: usize,
    e: usize,
    out: Seq<u8>,
) -> bool {
    &&& after.content() == replaced(before.content(), s as int, e as int, out)
    &&& after.cursor() == s + out.len()
    &&& after.log() == before.log().push(ChangeEvent::BeforeChange { start: s, end: e }).push(
        ChangeEvent::AfterChange {
            start: s,
            deleted: (e - s) as usize,
            inserted: out.len() as usize,
        },
    ).push(ChangeEvent::Refresh { start: s, end: s })
}

/// `after` holds the bytes and cursor of `before`; the edit of `[s, e)` was
/// announced and then closed by one notification of no net change.
pub open spec fn rolled_back(
    before: TextContainer,
    after: TextContainer,
    s: usize,
    e: usize,
) -> bool {
    &&& after.content() == before.content()
    &&& after.cursor() == before.cursor()
    &&& after.log() == before.log().push(ChangeEvent::BeforeChange { start: s, end: e }).push(
        ChangeEvent::Refresh { start: e, end: e },
    ).push(
        ChangeEvent::AfterChange {
            start: s,
            deleted: (e - s) as usize,
            inserted: (e - s) as usize,
        },
    )
}

/// What the compressed bytes of `[s, e)` decompress to, in the format that
/// their first byte selects.
pub open spec fn region_decoded(text: Seq<u8>, s: usize, e: usize) -> Option<Seq<u8>> {
    decoded(format_of(text[s as int]), text.subrange(s as int, e as int))
}

/// The compressed bytes of `[s, e)` decode, and the container has room for
/// the result.
pub open spec fn decodable(text: Seq<u8>, s: usize, e: usize) -> bool {
    &&& region_decoded(text, s, e) is Some
    &&& fits(text.len(), region_decoded(text, s, e)->0.len())
}

/// The region lies in a byte-oriented container, so work on it may begin.
pub open spec fn workable(c: TextContainer, start: usize, end: usize) -> bool {
    upper(start, end) <= c.content().len() && !c.wide()
}

/// Replaces the compressed bytes of the region between `start` and `end`
/// (in either order) by what they decompress to, the format being picked
/// from the region's first byte. `quit_requested` is polled after each chunk
/// is inserted.
///
/// A region out of the container, or a wide-character container, is an
/// error and changes nothing. An empty region gives `Ok(false)` and changes
/// nothing. Otherwise the edit is announced and decoded bytes are inserted
/// after the region one chunk at a time. At the clean end of the stream the
/// compressed bytes are removed and `Ok(true)` comes back. Where the stream
/// does not decode, the container would overflow, or a quit is requested, the
/// inserted bytes are removed and the cursor put back, and `Ok(false)` (or
/// `Err(Quit)`) comes back with the content as it was. Either way exactly one
/// after-change notification closes the edit.
pub fn decompress_region_polling<F: Fn() -> bool>(
    buf: &mut TextContainer,
    start: usize,
    end: usize,
    quit_requested: F,
) -> (r: Result<bool, RegionError>)
    requires
        old(buf).wf(),
        call_requires(quit_requested, ()),
    ensures
        final(buf).wf(),
        final(buf).wide() == old(buf).wide(),
        upper(start, end) > old(buf).content().len() ==> (r matches Err(RegionError::OutOfRange)),
        upper(start, end) <= old(buf).content().len() && old(buf).wide() ==> (r matches Err(
            RegionError::Multibyte,
        )),
        !workable(*old(buf), start, end) ==> untouched(*old(buf), *final(buf)),
        (r matches Err(RegionError::Quit)) ==> workable(*old(buf), start, end) && lower(start, end)
            < upper(start, end),
        workable(*old(buf), start, end) ==> ({
            let s = lower(start, end);
            let e = upper(start, end);
            &&& (r matches Ok(_)) || (r matches Err(RegionError::Quit))
            &&& s == e ==> (r matches Ok(false)) && untouched(*old(buf), *final(buf))
            &&& s < e && (r matches Ok(true)) ==> decodable(old(buf).content(), s, e)
            &&& s < e && decodable(old(buf).content(), s, e) ==> (r matches Ok(true))
                || (r matches Err(RegionError::Quit))
            &&& s < e && (forall|q: bool| call_ensures(quit_requested, (), q) ==> !q)
                ==> !(r matches Err(RegionError::Quit))
            &&& (r matches Ok(true)) ==> replaced_by(
                *old(buf),
                *final(buf),
                s,
                e,
                region_decoded(old(buf).content(), s, e)->0,
            )
            &&& s < e && ((r matches Ok(false)) || (r matches Err(RegionError::Quit)))
                ==> rolled_back(*old(buf), *final(buf), s, e)
        }),
{
    let (s, e) = match validate_region(buf, start, end) {
        Ok(bounds) => bounds,
        Err(err) => {
            return Err(err);
        },
    };
    if buf.is_multibyte() {
        return Err(RegionError::Multibyte);
    }
    if s == e {
        return Ok(false);
    }
    let ghost pre = buf.content();
    let ghost log0 = buf.log();
    let source = copy_range(buf.text(), s, e);
    let format = detect_format(source[0]);
    assert(source@[0] == pre[s as int]);
    let ghost full = decoded(format, source@);
    buf.notify(ChangeEvent::BeforeChange { start: s, end: e });
    let old_point = buf.point();
    buf.set_point(e);
    let mut inflater = Inflater::new(format, source.as_slice());
    let mut chunk: Vec<u8> = vec![0u8; CHUNK_SIZE];
    let mut total: usize = 0;
    assert(buf.content() =~= appended(pre, e, inflater.output()));
    loop
        invariant
            buf.wf(),
            !buf.wide(),
            s < e <= pre.len(),
            s == lower(start, end),
            e == upper(start, end),
            pre == old(buf).content(),
            log0 == old(buf).log(),
            !old(buf).wide(),
            old_point == old(buf).cursor(),
            old_point <= pre.len(),
            call_requires(quit_requested, ()),
            source@ == pre.subrange(s as int, e as int),
            full == decoded(format, source@),
            format == format_of(pre[s as int]),
            inflater.format() == format,
            inflater.source() == source@,
            inflater.output().len() == total,
            !inflater.failed(),
            full is Some ==> inflater.output().is_prefix_of(full->0),
            buf.content() == appended(pre, e, inflater.output()),
            buf.content().len() == pre.len() + total,
            buf.cursor() == e + total,
            buf.log() == log0.push(ChangeEvent::BeforeChange { start: s, end: e }),
            chunk@.len() == CHUNK_SIZE,
        decreases usize::MAX - total,
    {
        if buf.len() > usize::MAX - CHUNK_SIZE {
            assert(full is Some ==> inflater.output().len() <= full->0.len());
            roll_back(buf, s, e, total, old_point, Ghost(pre), Ghost(inflater.output()));
            return Ok(false);
        }
        let ghost produced = inflater.output();
        match inflater.read_chunk(chunk.as_mut_slice()) {
            Ok(n) => {
                if n == 0 {
                    commit(buf, s, e, total, Ghost(pre), Ghost(produced));
                    return Ok(true);
                }
                buf.insert_at_point(chunk.as_slice(), n);
                total = total + n;
                assert(buf.content() =~= appended(pre, e, inflater.output()));
                if quit_requested() {
                    roll_back(buf, s, e, total, old_point, Ghost(pre), Ghost(inflater.output()));
                    return Err(RegionError::Quit);
                }
            },
            Err(_) => {
                roll_back(buf, s, e, total, old_point, Ghost(pre), Ghost(produced));
                return Ok(false);
            },
        }
    }
}

/// Replaces the compressed bytes of the region between `start` and `end`
/// (in either order) by what they decompress to, never asking to quit: see
/// `decompress_region_polling`. `Ok(true)` comes back exactly when the region
/// is non-empty, its stream decodes and the result fits; `Ok(false)` leaves
/// the content and cursor as they were.
pub fn zlib_decompress_region(buf: &mut TextContainer, start: usize, end: usize) -> (r: Result<
    bool,
    RegionError,
>)
    requires
        old(buf).wf(),
    ensures
        final(buf).wf(),
        final(buf).wide() == old(buf).wide(),
        upper(start, end) > old(buf).content().len() ==> (r matches Err(RegionError::OutOfRange)),
        upper(start, end) <= old(buf).content().len() && old(buf).wide() ==> (r matches Err(
            RegionError::Multibyte,
        )),
        !workable(*old(buf), start, end) ==> untouched(*old(buf), *final(buf)),
        workable(*old(buf), start, end) ==> ({
            let s = lower(start, end);
            let e = upper(start, end);
            &&& r matches Ok(_)
            &&& s == e ==> (r matches Ok(false)) && untouched(*old(buf), *final(buf))
            &&& s < e ==> ((r matches Ok(true)) <==> decodable(old(buf).content(), s, e))
            &&& (r matches Ok(true)) ==> replaced_by(
                *old(buf),
                *final(buf),
                s,
                e,
                region_decoded(old(buf).content(), s, e)->0,
            )
            &&& s < e && (r matches Ok(false)) ==> rolled_back(*old(buf), *final(buf), s, e)
        }),
{
    let never = || -> (q: bool)
        ensures
            !q,
        { false };
    assert(forall|q: bool| call_ensures(never, (), q) ==> !q);
    decompress_region_polling(buf, start, end, never)
}

} // verus!
