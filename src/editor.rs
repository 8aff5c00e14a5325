//! The move-entry line: a short buffer of letters and digits.
use vstd::prelude::*;

verus! {

/// The most characters the move-entry line holds.
pub const MAX_INPUT_BUFFER_SIZE: usize = 16;

/// Whether `char::is_alphanumeric` holds of `c`.
pub uninterp spec fn alphanumeric(c: char) -> bool;

/// Relies on `char::is_alphanumeric`: whether `c` is alphabetic or numeric in
/// the Unicode sense.
#[verifier::external_body]
fn is_alphanumeric(c: char) -> (r: bool)
    ensures
        r == alphanumeric(c),
{
    c.is_alphanumeric()
}

/// Relies on `String`'s `FromIterator<char>`: the string of the characters
/// of `v`, in order.
#[verifier::external_body]
pub(crate) fn string_of_chars(v: &Vec<char>) -> (r: String)
    ensures
        r@ == v@,
{
    v.iter().collect()
}

/// The buffer after offering `c`, where `alnum` says whether `c` is a letter
/// or digit: `c` is kept only if it is one and there is room for it.
pub open spec fn after_append(s: Seq<char>, c: char, alnum: bool) -> Seq<char> {
    if alnum && s.len() < MAX_INPUT_BUFFER_SIZE {
        s.push(c)
    } else {
        s
    }
}

/// The buffer after a backspace: its last character removed, if any.
pub open spec fn after_backspace(s: Seq<char>) -> Seq<char> {
    if s.len() > 0 {
        s.drop_last()
    } else {
        s
    }
}

/// The characters typed so far on the move-entry line.
pub struct InputBuffer {
    pub chars: Vec<char>,
}

impl InputBuffer {
    /// The buffer never holds more than its capacity.
    pub open spec fn wf(&self) -> bool {
        self.chars@.len() <= MAX_INPUT_BUFFER_SIZE
    }

    /// An empty buffer.
    pub fn new() -> (r: InputBuffer)
        ensures
            r.wf(),
            r.chars@ == Seq::<char>::empty(),
    {
        InputBuffer { chars: Vec::new() }
    }

    /// Offers `c`, where `alnum` says whether it is a letter or digit; returns
    /// whether it was kept.
    pub fn append(&mut self, c: char, alnum: bool) -> (kept: bool)
        requires
            old(self).wf(),
        ensures
            final(self).wf(),
            kept == (alnum && old(self).chars@.len() < MAX_INPUT_BUFFER_SIZE),
            final(self).chars@ == after_append(old(self).chars@, c, alnum),
    {
        if alnum && self.chars.len() < MAX_INPUT_BUFFER_SIZE {
            self.chars.push(c);
            true
        } else {
            false
        }
    }

    /// Offers the typed character `c`; returns whether it was kept.
    pub fn push_key(&mut self, c: char) -> (kept: bool)
        requires
            old(self).wf(),
        ensures
            final(self).wf(),
            kept == (alphanumeric(c) && old(self).chars@.len() < MAX_INPUT_BUFFER_SIZE),
            final(self).chars@ == after_append(old(self).chars@, c, alphanumeric(c)),
    {
        let alnum = is_alphanumeric(c);
        self.append(c, alnum)
    }

    /// Removes the last character, if there is one.
    pub fn backspace(&mut self)
        requires
            old(self).wf(),
        ensures
            final(self).wf(),
            final(self).chars@ == after_backspace(old(self).chars@),
    {
        if self.chars.len() > 0 {
            self.chars.pop();
        }
    }

    /// Empties the buffer.
    pub fn clear(&mut self)
        ensures
            final(self).wf(),
            final(self).chars@ == Seq::<char>::empty(),
    {
        self.chars.clear();
    }

    /// The buffer's characters as a string.
    pub fn text(&self) -> (r: String)
        ensures
            r@ == self.chars@,
    {
        string_of_chars(&self.chars)
    }
}

/// The buffer after the characters of `t` are offered one by one, in order.
pub open spec fn after_typing(s: Seq<char>, t: Seq<char>) -> Seq<char>
    decreases t.len(),
{
    if t.len() == 0 {
        s
    } else {
        after_typing(after_append(s, t[0], alphanumeric(t[0])), t.drop_first())
    }
}

/// Typing a text of letters and digits that fits in the room left appends
/// exactly that text.
pub proof fn lemma_typing_appends(s: Seq<char>, t: Seq<char>)
    requires
        forall|i: int| 0 <= i < t.len() ==> alphanumeric(#[trigger] t[i]),
        s.len() + t.len() <= MAX_INPUT_BUFFER_SIZE,
    ensures
        after_typing(s, t) == s + t,
    decreases t.len(),
{
    if t.len() > 0 {
        assert(alphanumeric(t[0]));
        let rest = t.drop_first();
        assert forall|i: int| 0 <= i < rest.len() implies alphanumeric(#[trigger] rest[i]) by {
            assert(rest[i] == t[i + 1]);
        }
        lemma_typing_appends(s.push(t[0]), rest);
        assert(s.push(t[0]) + rest =~= s + t);
    } else {
        assert(s + t =~= s);
    }
}

/// A full buffer refuses every character, and no offer takes a buffer past
/// its capacity.
pub proof fn lemma_capacity_enforced(s: Seq<char>, c: char, alnum: bool)
    ensures
        s.len() >= MAX_INPUT_BUFFER_SIZE ==> after_append(s, c, alnum) == s,
        s.len() <= MAX_INPUT_BUFFER_SIZE ==> after_append(s, c, alnum).len()
            <= MAX_INPUT_BUFFER_SIZE,
{
}

} // verus!
