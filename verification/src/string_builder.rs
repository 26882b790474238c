//! The mutable character buffer.
//!
//! A [`StringBuilder`] owns an ordered sequence of characters (its view, a
//! `Seq<char>`) and an internal read cursor used only by the sequential
//! consumption protocol (`next`). Two buffers are equal exactly when their
//! character sequences are equal; the cursor is excluded.

use vstd::prelude::*;

use crate::render::Render;
use crate::render::clip;

verus! {

/// Relies on `String::push`: it appends the given character to the end of
/// the string.
pub assume_specification[ String::push ](s: &mut String, ch: char)
    ensures
        final(s)@ == old(s)@.push(ch),
;

/// Returned by the insertion operations when the insertion index exceeds the
/// current length of the buffer.
#[derive(Clone, Copy, Debug, PartialEq, Eq, Structural)]
pub struct IndexError;

/// A mutable character buffer: an ordered sequence of characters plus an
/// internal read cursor.
///
/// The view of a buffer is its character sequence. The cursor starts at zero,
/// never runs past the end of the sequence, and is advanced only by `next`.
pub struct StringBuilder {
    data: Vec<char>,
    cursor: usize,
}

impl View for StringBuilder {
    type V = Seq<char>;

    closed spec fn view(&self) -> Seq<char> {
        self.data@
    }
}

impl StringBuilder {
    /// The position of the internal read cursor.
    pub closed spec fn cursor(&self) -> nat {
        self.cursor as nat
    }

    /// The cursor never runs past the end of the character sequence. Every
    /// constructor establishes this and every operation preserves it.
    pub open spec fn wf(&self) -> bool {
        self.cursor() <= self@.len()
    }

    /// Create an empty buffer.
    pub fn new() -> (sb: Self)
        ensures
            sb@ == Seq::<char>::empty(),
            sb.cursor() == 0,
    {
        StringBuilder { data: Vec::new(), cursor: 0 }
    }

    /// Create a buffer holding the rendering of `value`.
    pub fn new_with_value<T: Render>(value: T) -> (sb: Self)
        ensures
            sb@ == value.rendering(),
            sb.cursor() == 0,
    {
        let mut sb = StringBuilder::new();
        sb.append(value);
        proof {
            assert(sb@ =~= value.rendering());
        }
        sb
    }

    /// Append the rendering of `what` to the end of the buffer.
    pub fn append<T: Render>(&mut self, what: T)
        ensures
            final(self)@ == old(self)@ + what.rendering(),
            final(self).cursor() == old(self).cursor(),
    {
        let mut chars = what.render_chars();
        self.data.append(&mut chars);
    }

    /// Append a line separator, then the rendering of `what`.
    pub fn append_line<T: Render>(&mut self, what: T)
        ensures
            final(self)@ == old(self)@ + seq!['\n'] + what.rendering(),
            final(self).cursor() == old(self).cursor(),
    {
        self.new_line();
        self.append(what);
        proof {
            assert(final(self)@ =~= old(self)@ + seq!['\n'] + what.rendering());
        }
    }

    /// Append a single line-separator character.
    pub fn new_line(&mut self)
        ensures
            final(self)@ == old(self)@.push('\n'),
            final(self).cursor() == old(self).cursor(),
    {
        self.data.push('\n');
    }

    /// Append a single character.
    pub fn push(&mut self, ch: char)
        ensures
            final(self)@ == old(self)@.push(ch),
            final(self).cursor() == old(self).cursor(),
    {
        self.data.push(ch);
    }

    /// Remove all content; the cursor is reset since nothing remains to read.
    pub fn clear(&mut self)
        ensures
            final(self)@ == Seq::<char>::empty(),
            final(self).cursor() == 0,
    {
        self.data.clear();
        self.cursor = 0;
    }

    /// Remove all content from the buffer. Same as `clear`.
    pub fn clear_buffer(&mut self)
        ensures
            final(self)@ == Seq::<char>::empty(),
            final(self).cursor() == 0,
    {
        self.clear();
    }

    /// Replace the content of the buffer with the rendering of `what`.
    pub fn set_value<T: Render>(&mut self, what: T)
        ensures
            final(self)@ == what.rendering(),
            final(self).cursor() == 0,
    {
        self.clear();
        self.append(what);
        proof {
            assert(final(self)@ =~= what.rendering());
        }
    }

    /// Replace the content of the buffer with the rendering of `what`. Same
    /// as `set_value`.
    pub fn replace_content_with<T: Render>(&mut self, what: T)
        ensures
            final(self)@ == what.rendering(),
            final(self).cursor() == 0,
    {
        self.set_value(what);
    }

    /// The number of characters currently held.
    pub fn len(&self) -> (n: usize)
        ensures
            n == self@.len(),
    {
        self.data.len()
    }

    /// The number of characters currently held. Same as `len`.
    pub fn get_buffer_size(&self) -> (n: usize)
        ensures
            n == self@.len(),
    {
        self.data.len()
    }

    /// Whether the buffer holds no characters.
    pub fn is_empty(&self) -> (r: bool)
        ensures
            r == (self@.len() == 0),
    {
        self.data.len() == 0
    }

    /// The character at position `index`, without advancing or mutating any
    /// state; absent when `index` is out of range. This is a pure positional
    /// lookup, never cursor-relative.
    pub fn nth(&self, index: usize) -> (r: Option<char>)
        ensures
            index < self@.len() ==> r == Some(self@[index as int]),
            index >= self@.len() ==> r is None,
    {
        if index < self.data.len() {
            Some(self.data[index])
        } else {
            None
        }
    }

    /// Sequential consumption: yield the character at the cursor and advance
    /// it, or yield nothing once the cursor has reached the end. Starting
    /// from a fresh buffer, repeated calls yield each character exactly once,
    /// in order, then terminate; the traversal is not restartable.
    pub fn next(&mut self) -> (r: Option<char>)
        ensures
            final(self)@ == old(self)@,
            old(self).cursor() < old(self)@.len() ==> {
                &&& r == Some(old(self)@[old(self).cursor() as int])
                &&& final(self).cursor() == old(self).cursor() + 1
            },
            old(self).cursor() >= old(self)@.len() ==> {
                &&& r is None
                &&& final(self).cursor() == old(self).cursor()
            },
    {
        if self.cursor < self.data.len() {
            let c = self.data[self.cursor];
            self.cursor = self.cursor + 1;
            Some(c)
        } else {
            None
        }
    }

    /// Render the buffer: the string formed by concatenating its characters
    /// in order. Does not mutate or consume the buffer.
    pub fn to_string(&self) -> (r: String)
        ensures
            r@ == self@,
    {
        let mut r = String::new();
        let mut i: usize = 0;
        while i < self.data.len()
            invariant
                i <= self.data@.len(),
                r@ == self.data@.subrange(0, i as int),
            decreases self.data@.len() - i,
        {
            r.push(self.data[i]);
            proof {
                assert(self.data@.subrange(0, i + 1 as int) =~= self.data@.subrange(
                    0,
                    i as int,
                ).push(self.data@[i as int]));
            }
            i += 1;
        }
        proof {
            assert(r@ =~= self@);
        }
        r
    }

    /// Insert the rendering of `what` at position `index`, shifting the
    /// following characters right. Fails, leaving the buffer unchanged, when
    /// `index` exceeds the current length.
    pub fn insert_at<T: Render>(&mut self, index: usize, what: T) -> (result: Result<
        (),
        IndexError,
    >)
        ensures
            index <= old(self)@.len() ==> {
                &&& result is Ok
                &&& final(self)@ == old(self)@.subrange(0, index as int) + what.rendering()
                    + old(self)@.subrange(index as int, old(self)@.len() as int)
            },
            index > old(self)@.len() ==> result is Err && final(self)@ == old(self)@,
            final(self).cursor() == old(self).cursor(),
    {
        if index > self.data.len() {
            return Err(IndexError);
        }
        let chars = what.render_chars();
        self.insert_chars(index, chars);
        Ok(())
    }

    /// Insert at most the first `max_len` characters of the rendering of
    /// `what` at position `index`. Fails, leaving the buffer unchanged, when
    /// `index` exceeds the current length.
    pub fn insert_at_with_len<T: Render>(
        &mut self,
        index: usize,
        what: T,
        max_len: usize,
    ) -> (result: Result<(), IndexError>)
        ensures
            index <= old(self)@.len() ==> {
                &&& result is Ok
                &&& final(self)@ == old(self)@.subrange(0, index as int) + clip(
                    what.rendering(),
                    max_len as int,
                ) + old(self)@.subrange(index as int, old(self)@.len() as int)
            },
            index > old(self)@.len() ==> result is Err && final(self)@ == old(self)@,
            final(self).cursor() == old(self).cursor(),
    {
        if index > self.data.len() {
            return Err(IndexError);
        }
        let mut chars = what.render_chars();
        if max_len < chars.len() {
            chars.truncate(max_len);
        }
        proof {
            assert(chars@ =~= clip(what.rendering(), max_len as int));
        }
        self.insert_chars(index, chars);
        Ok(())
    }

    /// Insert the given characters at position `index`, shifting the
    /// following characters right.
    fn insert_chars(&mut self, index: usize, chars: Vec<char>)
        requires
            index <= old(self)@.len(),
        ensures
            final(self)@ == old(self)@.subrange(0, index as int) + chars@ + old(
                self,
            )@.subrange(index as int, old(self)@.len() as int),
            final(self).cursor() == old(self).cursor(),
    {
        let ghost orig = self.data@;
        let ghost cursor0 = self.cursor;
        let mut j: usize = 0;
        while j < chars.len()
            invariant
                j <= chars@.len(),
                index <= orig.len(),
                self.cursor == cursor0,
                self.data@.len() == orig.len() + j,
                self.data@ == orig.subrange(0, index as int) + chars@.subrange(0, j as int)
                    + orig.subrange(index as int, orig.len() as int),
            decreases chars@.len() - j,
        {
            let current_len = self.data.len();
            proof {
                assert(index + j <= current_len);
            }
            self.data.insert(index + j, chars[j]);
            proof {
                assert(self.data@ =~= orig.subrange(0, index as int) + chars@.subrange(
                    0,
                    j + 1 as int,
                ) + orig.subrange(index as int, orig.len() as int));
            }
            j += 1;
        }
        proof {
            assert(chars@.subrange(0, chars@.len() as int) =~= chars@);
        }
    }

    /// Consume both buffers and produce a new one whose characters are those
    /// of `self` followed by those of `other`.
    pub fn combine(self, other: StringBuilder) -> (r: StringBuilder)
        ensures
            r@ == self@ + other@,
            r.cursor() == 0,
    {
        let mut data = self.data;
        let mut rest = other.data;
        data.append(&mut rest);
        StringBuilder { data, cursor: 0 }
    }

    /// Append the characters of `other` onto the end of `self`, consuming
    /// `other`.
    pub fn combine_in_place(&mut self, other: StringBuilder)
        ensures
            final(self)@ == old(self)@ + other@,
            final(self).cursor() == old(self).cursor(),
    {
        let mut rest = other.data;
        self.data.append(&mut rest);
    }

    /// Copy the characters currently held, in order.
    fn chars_vec(&self) -> (r: Vec<char>)
        ensures
            r@ == self@,
    {
        let mut r: Vec<char> = Vec::new();
        let mut i: usize = 0;
        while i < self.data.len()
            invariant
                i <= self.data@.len(),
                r@ == self.data@.subrange(0, i as int),
            decreases self.data@.len() - i,
        {
            r.push(self.data[i]);
            proof {
                assert(self.data@.subrange(0, i + 1 as int) =~= self.data@.subrange(
                    0,
                    i as int,
                ).push(self.data@[i as int]));
            }
            i += 1;
        }
        proof {
            assert(r@ =~= self@);
        }
        r
    }
}

impl Render for StringBuilder {
    /// A buffer renders as its own content.
    open spec fn rendering(&self) -> Seq<char> {
        self@
    }

    fn render_chars(&self) -> (r: Vec<char>)
        ensures
            r@ == self.rendering(),
    {
        self.chars_vec()
    }
}

impl Clone for StringBuilder {
    /// An independent copy of the characters, with a reset cursor.
    fn clone(&self) -> (r: Self)
        ensures
            r@ == self@,
            r.cursor() == 0,
    {
        StringBuilder { data: self.chars_vec(), cursor: 0 }
    }
}

impl Default for StringBuilder {
    /// The empty buffer.
    fn default() -> (r: Self)
        ensures
            r@ == Seq::<char>::empty(),
            r.cursor() == 0,
    {
        StringBuilder::new()
    }
}

impl PartialEq for StringBuilder {
    /// Buffers are equal exactly when their character sequences are equal,
    /// element for element; the cursor is excluded.
    fn eq(&self, other: &Self) -> (r: bool) {
        if self.data.len() != other.data.len() {
            return false;
        }
        let mut i: usize = 0;
        while i < self.data.len()
            invariant
                i <= self.data@.len(),
                self.data@.len() == other.data@.len(),
                forall|k: int| 0 <= k < i ==> self.data@[k] == other.data@[k],
            decreases self.data@.len() - i,
        {
            if self.data[i] != other.data[i] {
                return false;
            }
            i += 1;
        }
        proof {
            assert(self.data@ =~= other.data@);
        }
        true
    }
}

impl vstd::std_specs::cmp::PartialEqSpecImpl for StringBuilder {
    open spec fn obeys_eq_spec() -> bool {
        true
    }

    open spec fn eq_spec(&self, other: &Self) -> bool {
        self@ == other@
    }
}

} // verus!
