use vstd::prelude::*;

verus! {

/// One entry of the container's change log, as observers would see it.
#[derive(Clone, Copy, Debug, PartialEq, Eq, Structural)]
pub enum ChangeEvent {
    /// The span `[start, end)` is about to be modified.
    BeforeChange { start: usize, end: usize },
    /// At `start`, `deleted` bytes were replaced by `inserted` bytes.
    AfterChange { start: usize, deleted: usize, inserted: usize },
    /// Derived annotations over `[start, end)` were recomputed.
    Refresh { start: usize, end: usize },
}

/// A byte-oriented editable text: its bytes, an edit cursor, a mode flag and
/// the log of change notifications it has dispatched.
pub struct TextContainer {
    text: Vec<u8>,
    point: usize,
    multibyte: bool,
    events: Vec<ChangeEvent>,
}

impl TextContainer {
    /// The bytes held.
    pub closed spec fn content(&self) -> Seq<u8> {
        self.text@
    }

    /// The edit cursor, a byte offset.
    pub closed spec fn cursor(&self) -> nat {
        self.point as nat
    }

    /// Whether the container holds wide characters rather than bytes.
    pub closed spec fn wide(&self) -> bool {
        self.multibyte
    }

    /// The notifications dispatched so far, oldest first.
    pub closed spec fn log(&self) -> Seq<ChangeEvent> {
        self.events@
    }

    /// The cursor lies within the text.
    pub open spec fn wf(&self) -> bool {
        self.cursor() <= self.content().len()
    }

    /// A byte-oriented container holding `text`, with the cursor at its start
    /// and nothing logged.
    pub fn new(text: Vec<u8>) -> (r: Self)
        ensures
            r.wf(),
            r.content() == text@,
            r.cursor() == 0,
            !r.wide(),
            r.log() == Seq::<ChangeEvent>::empty(),
    {
        TextContainer { text, point: 0, multibyte: false, events: Vec::new() }
    }

    /// A wide-character container holding `text`.
    pub fn new_multibyte(text: Vec<u8>) -> (r: Self)
        ensures
            r.wf(),
            r.content() == text@,
            r.cursor() == 0,
            r.wide(),
            r.log() == Seq::<ChangeEvent>::empty(),
    {
        TextContainer { text, point: 0, multibyte: true, events: Vec::new() }
    }

    pub fn len(&self) -> (r: usize)
        ensures
            r == self.content().len(),
    {
        self.text.len()
    }

    pub fn text(&self) -> (r: &[u8])
        ensures
            r@ == self.content(),
    {
        self.text.as_slice()
    }

    pub fn point(&self) -> (r: usize)
        ensures
            r == self.cursor(),
    {
        self.point
    }

    pub fn is_multibyte(&self) -> (r: bool)
        ensures
            r == self.wide(),
    {
        self.multibyte
    }

    pub fn events(&self) -> (r: &[ChangeEvent])
        ensures
            r@ == self.log(),
    {
        self.events.as_slice()
    }

    /// Moves the cursor to `pos`.
    pub fn set_point(&mut self, pos: usize)
        requires
            pos <= old(self).content().len(),
        ensures
            final(self).wf(),
            final(self).cursor() == pos,
            final(self).content() == old(self).content(),
            final(self).wide() == old(self).wide(),
            final(self).log() == old(self).log(),
    {
        self.point = pos;
    }

    /// Appends `event` to the change log.
    pub fn notify(&mut self, event: ChangeEvent)
        ensures
            final(self).log() == old(self).log().push(event),
            final(self).content() == old(self).content(),
            final(self).cursor() == old(self).cursor(),
            final(self).wide() == old(self).wide(),
    {
        self.events.push(event);
    }

    /// Inserts the first `n` bytes of `bytes` at the cursor, which moves past
    /// them. No notification is logged.
    pub fn insert_at_point(&mut self, bytes: &[u8], n: usize)
        requires
            old(self).wf(),
            n <= bytes@.len(),
            old(self).content().len() + n <= usize::MAX,
        ensures
            final(self).wf(),
            final(self).content() == old(self).content().subrange(0, old(self).cursor() as int)
                + bytes@.subrange(0, n as int) + old(self).content().subrange(
                old(self).cursor() as int,
                old(self).content().len() as int,
            ),
            final(self).cursor() == old(self).cursor() + n,
            final(self).wide() == old(self).wide(),
            final(self).log() == old(self).log(),
    {
        let ghost head = self.text@.subrange(0, self.point as int);
        let mut tail = self.text.split_off(self.point);
        let mut i: usize = 0;
        while i < n
            invariant
                i <= n,
                n <= bytes@.len(),
                self.text@ == head + bytes@.subrange(0, i as int),
                head.len() == self.point,
                self.point == old(self).point,
                self.multibyte == old(self).multibyte,
                self.events == old(self).events,
                tail@ == old(self).text@.subrange(self.point as int, old(self).text@.len() as int),
                old(self).point <= old(self).text@.len(),
                old(self).text@.len() + n <= usize::MAX,
            decreases n - i,
        {
            self.text.push(bytes[i]);
            assert(bytes@.subrange(0, i + 1) == bytes@.subrange(0, i as int).push(
                bytes@[i as int],
            ));
            i = i + 1;
        }
        self.text.append(&mut tail);
        self.point = self.point + n;
    }

    /// Removes the bytes of `[start, end)`. A cursor past the span moves back
    /// by its length; one inside it moves to `start`. No notification is
    /// logged.
    pub fn delete_range(&mut self, start: usize, end: usize)
        requires
            old(self).wf(),
            start <= end <= old(self).content().len(),
        ensures
            final(self).wf(),
            final(self).content() == old(self).content().subrange(0, start as int)
                + old(self).content().subrange(end as int, old(self).content().len() as int),
            final(self).cursor() == if old(self).cursor() >= end {
                (old(self).cursor() - (end - start)) as nat
            } else if old(self).cursor() >= start {
                start as nat
            } else {
                old(self).cursor()
            },
            final(self).wide() == old(self).wide(),
            final(self).log() == old(self).log(),
    {
        let mut tail = self.text.split_off(end);
        self.text.truncate(start);
        self.text.append(&mut tail);
        if self.point >= end {
            self.point = self.point - (end - start);
        } else if self.point >= start {
            self.point = start;
        }
    }
}

} // verus!
