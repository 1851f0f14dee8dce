use vstd::prelude::*;
use crate::text::string_of;

verus! {

/// Maximum buffer size.
pub const BUFFER_SIZE: usize = 40;

/// Number of characters kept when the buffer is full.
pub const KEYS_MAINTAIN: usize = 20;

/// The entries after one push: when the buffer is full, only the newest
/// `KEYS_MAINTAIN` entries are kept before the new one is appended.
pub open spec fn pushed(s: Seq<(char, bool)>, e: (char, bool)) -> Seq<(char, bool)> {
    if s.len() >= BUFFER_SIZE {
        s.subrange(s.len() - KEYS_MAINTAIN, s.len() as int).push(e)
    } else {
        s.push(e)
    }
}

/// The entries after pushing a whole stream into an empty buffer.
pub open spec fn pushed_all(stream: Seq<(char, bool)>) -> Seq<(char, bool)>
    decreases stream.len(),
{
    if stream.len() == 0 {
        Seq::empty()
    } else {
        pushed(pushed_all(stream.drop_last()), stream.last())
    }
}

/// How many entries remain after `n` pushes into an empty buffer.
pub open spec fn kept_after(n: nat) -> nat {
    if n <= BUFFER_SIZE {
        n
    } else {
        (KEYS_MAINTAIN + 1 + (n - (BUFFER_SIZE + 1)) % (KEYS_MAINTAIN as int)) as nat
    }
}

/// The characters of the entries.
pub open spec fn chars_of_entries(s: Seq<(char, bool)>) -> Seq<char> {
    s.map_values(|e: (char, bool)| e.0)
}

/// Input buffer for managing typed characters.
#[derive(Debug, Clone)]
pub struct InputBuffer {
    /// Characters in the buffer, each with its lowercase flag
    entries: Vec<(char, bool)>,
    /// Last 'w' was converted to 'ư' (Telex specific)
    last_w_converted: bool,
    /// Last character was an escape character (VIQR specific)
    last_is_escape: bool,
}

impl View for InputBuffer {
    type V = Seq<(char, bool)>;

    closed spec fn view(&self) -> Seq<(char, bool)> {
        self.entries@
    }
}

impl Default for InputBuffer {
    fn default() -> (r: Self)
        ensures
            r@ == Seq::<(char, bool)>::empty(),
    {
        InputBuffer::new()
    }
}

impl InputBuffer {
    /// The flag that Telex sets after converting a standalone `w`.
    pub closed spec fn w_flag(&self) -> bool {
        self.last_w_converted
    }

    /// The flag that VIQR sets after an escape character.
    pub closed spec fn escape_flag(&self) -> bool {
        self.last_is_escape
    }

    /// Create a new empty buffer.
    pub fn new() -> (r: Self)
        ensures
            r@ == Seq::<(char, bool)>::empty(),
            !r.w_flag(),
            !r.escape_flag(),
    {
        InputBuffer { entries: Vec::new(), last_w_converted: false, last_is_escape: false }
    }

    /// Push a character onto the buffer; when it is full, only the newest
    /// `KEYS_MAINTAIN` characters are kept first.
    pub fn push(&mut self, ch: char, is_lowercase: bool)
        ensures
            final(self)@ == pushed(old(self)@, (ch, is_lowercase)),
            final(self).w_flag() == old(self).w_flag(),
            final(self).escape_flag() == old(self).escape_flag(),
    {
        if self.entries.len() >= BUFFER_SIZE {
            self.throw_buffer();
        }
        self.entries.push((ch, is_lowercase));
    }

    /// Keep only the newest `KEYS_MAINTAIN` characters.
    fn throw_buffer(&mut self)
        requires
            old(self).entries@.len() >= KEYS_MAINTAIN,
        ensures
            final(self).entries@ == old(self).entries@.subrange(
                old(self).entries@.len() - KEYS_MAINTAIN,
                old(self).entries@.len() as int,
            ),
            final(self).last_w_converted == old(self).last_w_converted,
            final(self).last_is_escape == old(self).last_is_escape,
    {
        let n = self.entries.len();
        let start = n - KEYS_MAINTAIN;
        let mut kept: Vec<(char, bool)> = Vec::new();
        let mut i: usize = start;
        while i < n
            invariant
                n == self.entries@.len(),
                start <= i <= n,
                kept@ == self.entries@.subrange(start as int, i as int),
            decreases n - i,
        {
            kept.push(self.entries[i]);
            i = i + 1;
            assert(kept@ =~= self.entries@.subrange(start as int, i as int));
        }
        self.entries = kept;
    }

    /// Pop the last character from the buffer.
    pub fn pop(&mut self) -> (r: Option<(char, bool)>)
        ensures
            old(self)@.len() == 0 ==> r is None && final(self)@ == old(self)@,
            old(self)@.len() > 0 ==> r == Some(old(self)@.last()) && final(self)@ == old(self)@.drop_last(),
            final(self).w_flag() == old(self).w_flag(),
            final(self).escape_flag() == old(self).escape_flag(),
    {
        self.entries.pop()
    }

    /// Get the last character without removing it.
    pub fn last(&self) -> (r: Option<&char>)
        ensures
            self@.len() == 0 ==> r is None,
            self@.len() > 0 ==> r == Some(&self@.last().0),
    {
        if self.entries.len() == 0 {
            None
        } else {
            Some(&self.entries[self.entries.len() - 1].0)
        }
    }

    /// Get character at specific position.
    pub fn get(&self, index: usize) -> (r: Option<&char>)
        ensures
            index < self@.len() ==> r == Some(&self@[index as int].0),
            index >= self@.len() ==> r is None,
    {
        if index < self.entries.len() {
            Some(&self.entries[index].0)
        } else {
            None
        }
    }

    /// Set character at specific position, keeping its lowercase flag; an
    /// index past the end changes nothing.
    pub fn set(&mut self, index: usize, ch: char)
        ensures
            index < old(self)@.len() ==> final(self)@ == old(self)@.update(
                index as int,
                (ch, old(self)@[index as int].1),
            ),
            index >= old(self)@.len() ==> final(self)@ == old(self)@,
            final(self).w_flag() == old(self).w_flag(),
            final(self).escape_flag() == old(self).escape_flag(),
    {
        if index < self.entries.len() {
            let flag = self.entries[index].1;
            self.entries.set(index, (ch, flag));
        }
    }

    /// Get the number of characters in the buffer.
    pub fn len(&self) -> (r: usize)
        ensures
            r == self@.len(),
    {
        self.entries.len()
    }

    /// Check if the buffer is empty.
    pub fn is_empty(&self) -> (r: bool)
        ensures
            r == (self@.len() == 0),
    {
        self.entries.len() == 0
    }

    /// Clear the entire buffer and its flags.
    pub fn clear(&mut self)
        ensures
            final(self)@ == Seq::<(char, bool)>::empty(),
            !final(self).w_flag(),
            !final(self).escape_flag(),
    {
        self.entries = Vec::new();
        self.last_w_converted = false;
        self.last_is_escape = false;
    }

    /// The characters from position `start` on.
    pub fn chars_from(&self, start: usize) -> (r: Vec<char>)
        requires
            start <= self@.len(),
        ensures
            r@ == chars_of_entries(self@).subrange(start as int, self@.len() as int),
    {
        let mut r: Vec<char> = Vec::new();
        let mut i: usize = start;
        while i < self.entries.len()
            invariant
                start <= i <= self@.len(),
                r@ == chars_of_entries(self@).subrange(start as int, i as int),
            decreases self@.len() - i,
        {
            r.push(self.entries[i].0);
            i = i + 1;
            assert(r@ =~= chars_of_entries(self@).subrange(start as int, i as int));
        }
        r
    }

    /// Get all characters as a string.
    pub fn to_string(&self) -> (r: String)
        ensures
            r@ == chars_of_entries(self@),
    {
        let cs = self.chars_from(0);
        assert(chars_of_entries(self@).subrange(0, self@.len() as int) =~= chars_of_entries(self@));
        string_of(cs.as_slice())
    }

    /// Whether the last 'w' was converted.
    pub fn last_w_converted(&self) -> (r: bool)
        ensures
            r == self.w_flag(),
    {
        self.last_w_converted
    }

    pub fn set_last_w_converted(&mut self, value: bool)
        ensures
            final(self)@ == old(self)@,
            final(self).w_flag() == value,
            final(self).escape_flag() == old(self).escape_flag(),
    {
        self.last_w_converted = value;
    }

    /// Whether the last character was an escape character.
    pub fn last_is_escape(&self) -> (r: bool)
        ensures
            r == self.escape_flag(),
    {
        self.last_is_escape
    }

    pub fn set_last_is_escape(&mut self, value: bool)
        ensures
            final(self)@ == old(self)@,
            final(self).escape_flag() == value,
            final(self).w_flag() == old(self).w_flag(),
    {
        self.last_is_escape = value;
    }
}

/// After any number `n` of pushes into an empty buffer, it holds the last
/// `kept_after(n)` of the pushed entries, in order: all of them up to
/// `BUFFER_SIZE`, and past that `KEYS_MAINTAIN + 1` plus the pushes since the
/// last trim.
pub proof fn lemma_overflow_keeps_tail(stream: Seq<(char, bool)>)
    ensures
        pushed_all(stream).len() == kept_after(stream.len()),
        pushed_all(stream) == stream.subrange(
            stream.len() - kept_after(stream.len()),
            stream.len() as int,
        ),
    decreases stream.len(),
{
    if stream.len() > 0 {
        let prev = stream.drop_last();
        lemma_overflow_keeps_tail(prev);
        let n = stream.len();
        let k = kept_after(prev.len());
        if k >= BUFFER_SIZE {
            assert(k == BUFFER_SIZE);
            assert(prev.len() == BUFFER_SIZE || (prev.len() > BUFFER_SIZE && (prev.len() - (BUFFER_SIZE + 1)) % 20 == 19));
            assert(kept_after(n) == KEYS_MAINTAIN + 1);
            assert(pushed_all(stream) =~= stream.subrange(n - kept_after(n), n as int));
        } else {
            assert(kept_after(n) == k + 1);
            assert(pushed_all(stream) =~= stream.subrange(n - kept_after(n), n as int));
        }
    } else {
        assert(pushed_all(stream) =~= stream.subrange(0, 0));
    }
}

} // verus!
