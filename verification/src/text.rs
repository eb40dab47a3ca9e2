//! Character-sequence helpers: conversion between strings and character
//! vectors, substring search, and splitting into lines that keep their
//! line endings.

use vstd::prelude::*;
use vstd::std_specs::iter::IteratorSpec;

verus! {

/// `pat` occurs in `s` at offset `i`.
pub open spec fn occurs_at(s: Seq<char>, pat: Seq<char>, i: int) -> bool {
    0 <= i && i + pat.len() <= s.len() && s.subrange(i, i + pat.len()) == pat
}

/// `pat` occurs somewhere in `s`.
pub open spec fn contains_text(s: Seq<char>, pat: Seq<char>) -> bool {
    exists|i: int| occurs_at(s, pat, i)
}

/// `i` is the offset of the last occurrence of `pat` in `s`.
pub open spec fn is_last_occurrence(s: Seq<char>, pat: Seq<char>, i: int) -> bool {
    occurs_at(s, pat, i) && forall|j: int| i < j ==> !occurs_at(s, pat, j)
}

/// `c` occurs in `s`.
pub open spec fn contains_char(s: Seq<char>, c: char) -> bool {
    exists|i: int| 0 <= i < s.len() && s[i] == c
}

/// `String::push` of the standard library appends the character to the
/// end of the string.
pub assume_specification[ String::push ](s: &mut String, c: char)
    ensures
        final(s)@ == old(s)@.push(c),
;

/// The characters of `s`, in order.
pub fn to_chars(s: &str) -> (v: Vec<char>)
    ensures
        v@ == s@,
{
    let mut it = s.chars();
    let mut v: Vec<char> = Vec::new();
    loop
        invariant
            v@ + it.remaining() == s@,
            it.decrease() is Some,
        ensures
            v@ == s@,
        decreases it.decrease()->0,
    {
        match it.next() {
            Some(c) => {
                v.push(c);
            },
            None => {
                assert(v@ + it.remaining() =~= v@);
                break ;
            },
        }
    }
    v
}

/// The string made of the characters of `v`, in order.
pub fn to_text(v: &Vec<char>) -> (s: String)
    ensures
        s@ == v@,
{
    let mut s = String::new();
    let mut i: usize = 0;
    while i < v.len()
        invariant
            i <= v.len(),
            s@ == v@.subrange(0, i as int),
        decreases v.len() - i,
    {
        s.push(v[i]);
        i += 1;
    }
    assert(v@.subrange(0, v.len() as int) =~= v@);
    s
}

/// Whether `pat` occurs in `s` at offset `i`.
pub fn matches_at(s: &Vec<char>, pat: &Vec<char>, i: usize) -> (b: bool)
    ensures
        b == occurs_at(s@, pat@, i as int),
{
    if pat.len() > s.len() || i > s.len() - pat.len() {
        return false;
    }
    let mut k: usize = 0;
    while k < pat.len()
        invariant
            i + pat.len() <= s.len(),
            k <= pat.len(),
            forall|j: int| 0 <= j < k ==> s@[i + j] == pat@[j],
        decreases pat.len() - k,
    {
        if s[i + k] != pat[k] {
            assert(s@.subrange(i as int, i + pat.len())[k as int] == s@[i + k]);
            return false;
        }
        k += 1;
    }
    assert(s@.subrange(i as int, i + pat.len()) =~= pat@);
    true
}

/// Offset of the last occurrence of `pat` in `s`, if there is one.
pub fn rfind(s: &Vec<char>, pat: &Vec<char>) -> (r: Option<usize>)
    ensures
        match r {
            Some(i) => is_last_occurrence(s@, pat@, i as int),
            None => !contains_text(s@, pat@),
        },
{
    if pat.len() > s.len() {
        return None;
    }
    let mut i: usize = s.len() - pat.len();
    loop
        invariant
            i + pat.len() <= s.len(),
            forall|j: int| i < j ==> !occurs_at(s@, pat@, j),
        decreases i,
    {
        if matches_at(s, pat, i) {
            return Some(i);
        }
        if i == 0 {
            return None;
        }
        i -= 1;
    }
}

/// Whether `pat` occurs somewhere in `s`.
pub fn contains(s: &Vec<char>, pat: &Vec<char>) -> (b: bool)
    ensures
        b == contains_text(s@, pat@),
{
    match rfind(s, pat) {
        Some(i) => {
            assert(occurs_at(s@, pat@, i as int));
            true
        },
        None => false,
    }
}

/// Whether the character `c` occurs in `s`.
pub fn has_char(s: &Vec<char>, c: char) -> (b: bool)
    ensures
        b == contains_char(s@, c),
{
    let mut i: usize = 0;
    while i < s.len()
        invariant
            i <= s.len(),
            forall|j: int| 0 <= j < i ==> s@[j] != c,
        decreases s.len() - i,
    {
        if s[i] == c {
            return true;
        }
        i += 1;
    }
    false
}

/// Whether `a` and `b` hold the same characters.
pub fn same_text(a: &Vec<char>, b: &Vec<char>) -> (same: bool)
    ensures
        same == (a@ == b@),
{
    if a.len() != b.len() {
        return false;
    }
    let mut i: usize = 0;
    while i < a.len()
        invariant
            a.len() == b.len(),
            i <= a.len(),
            forall|j: int| 0 <= j < i ==> a@[j] == b@[j],
        decreases a.len() - i,
    {
        if a[i] != b[i] {
            return false;
        }
        i += 1;
    }
    assert(a@ =~= b@);
    true
}

/// Appends the characters of `tail` to `out`.
pub fn append_chars(out: &mut Vec<char>, tail: &Vec<char>)
    ensures
        final(out)@ == old(out)@ + tail@,
{
    let mut i: usize = 0;
    while i < tail.len()
        invariant
            i <= tail.len(),
            out@ == old(out)@ + tail@.subrange(0, i as int),
        decreases tail.len() - i,
    {
        out.push(tail[i]);
        i += 1;
        assert(out@ =~= old(out)@ + tail@.subrange(0, i as int));
    }
    assert(tail@.subrange(0, tail.len() as int) =~= tail@);
}

/// Length of the first line of `s`, counting the line feed that ends it.
/// The last line may lack a line feed; the empty text has no line.
pub open spec fn first_line_len(s: Seq<char>) -> int
    decreases s.len(),
{
    if s.len() == 0 {
        0
    } else if s[0] == '\n' {
        1
    } else {
        1 + first_line_len(s.drop_first())
    }
}

/// The first line of `s`, line ending included.
pub open spec fn first_line(s: Seq<char>) -> Seq<char> {
    s.subrange(0, first_line_len(s))
}

/// What follows the first line of `s`.
pub open spec fn after_first_line(s: Seq<char>) -> Seq<char> {
    s.subrange(first_line_len(s), s.len() as int)
}

/// The lines of `s`, each with the line ending it had.
pub open spec fn lines_with_endings(s: Seq<char>) -> Seq<Seq<char>>
    decreases s.len(),
    via lines_with_endings_decreases
{
    if s.len() == 0 {
        Seq::empty()
    } else {
        seq![first_line(s)] + lines_with_endings(after_first_line(s))
    }
}

#[via_fn]
proof fn lines_with_endings_decreases(s: Seq<char>) {
    if s.len() != 0 {
        lemma_first_line_len(s);
    }
}

/// The concatenation of `parts`, in order.
pub open spec fn concat_all(parts: Seq<Seq<char>>) -> Seq<char>
    decreases parts.len(),
{
    if parts.len() == 0 {
        Seq::empty()
    } else {
        concat_all(parts.drop_last()) + parts.last()
    }
}

/// The first line is not empty unless the text is, ends at the first line
/// feed, and holds no other line feed.
pub proof fn lemma_first_line_len(s: Seq<char>)
    ensures
        0 <= first_line_len(s) <= s.len(),
        s.len() > 0 ==> first_line_len(s) > 0,
        forall|j: int| 0 <= j < first_line_len(s) - 1 ==> s[j] != '\n',
        first_line_len(s) < s.len() ==> s[first_line_len(s) - 1] == '\n',
    decreases s.len(),
{
    if s.len() != 0 && s[0] != '\n' {
        let t = s.drop_first();
        lemma_first_line_len(t);
        assert forall|j: int| 0 <= j < first_line_len(s) - 1 implies s[j] != '\n' by {
            if j > 0 {
                assert(s[j] == t[j - 1]);
            }
        }
        if first_line_len(s) < s.len() {
            assert(s[first_line_len(s) - 1] == t[first_line_len(t) - 1]);
        }
    }
}

/// Splitting a text into its lines loses nothing: the lines, put back
/// together, are the text.
pub proof fn lemma_lines_concat(s: Seq<char>)
    ensures
        concat_all(lines_with_endings(s)) == s,
    decreases s.len(),
{
    if s.len() == 0 {
        assert(concat_all(lines_with_endings(s)) =~= s);
    } else {
        lemma_first_line_len(s);
        let rest = after_first_line(s);
        lemma_lines_concat(rest);
        lemma_concat_prepend(first_line(s), lines_with_endings(rest));
        assert(first_line(s) + rest =~= s);
    }
}

/// Concatenation with one more part in front.
pub proof fn lemma_concat_prepend(head: Seq<char>, parts: Seq<Seq<char>>)
    ensures
        concat_all(seq![head] + parts) == head + concat_all(parts),
    decreases parts.len(),
{
    let all = seq![head] + parts;
    if parts.len() == 0 {
        assert(all.drop_last() =~= Seq::<Seq<char>>::empty());
        assert(concat_all(all.drop_last()) =~= Seq::<char>::empty());
        assert(concat_all(all) =~= head + concat_all(parts));
    } else {
        lemma_concat_prepend(head, parts.drop_last());
        assert(all.drop_last() =~= seq![head] + parts.drop_last());
        assert(all.last() == parts.last());
        assert(concat_all(all) =~= head + concat_all(parts));
    }
}

/// A line with its ending: it ends in a line feed and holds no other.
pub open spec fn is_whole_line(line: Seq<char>) -> bool {
    &&& line.len() > 0
    &&& line.last() == '\n'
    &&& forall|j: int| 0 <= j < line.len() - 1 ==> line[j] != '\n'
}

/// A line without ending, as only the last line of a text can be: it is
/// not empty and holds no line feed.
pub open spec fn is_open_line(line: Seq<char>) -> bool {
    &&& line.len() > 0
    &&& forall|j: int| 0 <= j < line.len() ==> line[j] != '\n'
}

/// `lines` can be the lines of a text: each has its ending, but for the
/// last, which may lack it.
pub open spec fn are_lines(lines: Seq<Seq<char>>) -> bool {
    forall|i: int|
        0 <= i < lines.len() ==> is_whole_line(#[trigger] lines[i]) || (i == lines.len() - 1
            && is_open_line(lines[i]))
}

/// The first line ends where the first line feed stands, or where the
/// text ends without one.
pub proof fn lemma_first_line_is(s: Seq<char>, k: int)
    requires
        0 < k <= s.len(),
        forall|j: int| 0 <= j < k - 1 ==> s[j] != '\n',
        k == s.len() || s[k - 1] == '\n',
    ensures
        first_line_len(s) == k,
    decreases s.len(),
{
    if s[0] != '\n' {
        let t = s.drop_first();
        if k > 1 {
            assert forall|j: int| 0 <= j < k - 2 implies t[j] != '\n' by {
                assert(t[j] == s[j + 1]);
            }
            assert(k - 1 == t.len() || t[k - 2] == '\n');
            lemma_first_line_is(t, k - 1);
        }
    }
}

/// What a text is split into are lines.
pub proof fn lemma_lines_are_lines(s: Seq<char>)
    ensures
        are_lines(lines_with_endings(s)),
    decreases s.len(),
{
    if s.len() > 0 {
        lemma_first_line_len(s);
        let k = first_line_len(s);
        let head = first_line(s);
        let tail = lines_with_endings(after_first_line(s));
        lemma_lines_are_lines(after_first_line(s));
        let all = lines_with_endings(s);
        assert(all =~= seq![head] + tail);
        assert forall|i: int| 0 <= i < all.len() implies is_whole_line(#[trigger] all[i]) || (i
            == all.len() - 1 && is_open_line(all[i])) by {
            if i == 0 {
                assert(forall|j: int| 0 <= j < k ==> head[j] == s[j]);
                if k == s.len() {
                    assert(after_first_line(s).len() == 0);
                    assert(tail.len() == 0);
                }
            } else {
                assert(all[i] == tail[i - 1]);
            }
        }
    }
}

/// Lines put together and split again are the same lines.
pub proof fn lemma_lines_of_concat(lines: Seq<Seq<char>>)
    requires
        are_lines(lines),
    ensures
        lines_with_endings(concat_all(lines)) == lines,
    decreases lines.len(),
{
    if lines.len() == 0 {
        assert(lines_with_endings(concat_all(lines)) =~= lines);
    } else {
        let head = lines[0];
        let tail = lines.drop_first();
        assert(lines =~= seq![head] + tail);
        lemma_concat_prepend(head, tail);
        let s = concat_all(lines);
        assert forall|i: int| 0 <= i < tail.len() implies is_whole_line(#[trigger] tail[i]) || (i
            == tail.len() - 1 && is_open_line(tail[i])) by {
            assert(tail[i] == lines[i + 1]);
        }
        lemma_lines_of_concat(tail);
        assert(is_whole_line(lines[0]) || (0 == lines.len() - 1 && is_open_line(lines[0])));
        assert(forall|j: int| 0 <= j < head.len() ==> s[j] == head[j]);
        if tail.len() == 0 {
            assert(concat_all(tail).len() == 0);
        }
        lemma_first_line_is(s, head.len() as int);
        assert(first_line(s) =~= head);
        assert(after_first_line(s) =~= concat_all(tail));
    }
}

/// A cursor over a text that hands out its lines one by one, each with
/// its line ending.
pub struct LinesWithEndings {
    input: Vec<char>,
    pos: usize,
}

impl LinesWithEndings {
    /// The text that has not been handed out yet.
    pub closed spec fn remaining(&self) -> Seq<char> {
        if self.pos <= self.input@.len() {
            self.input@.subrange(self.pos as int, self.input@.len() as int)
        } else {
            Seq::empty()
        }
    }

    /// A cursor at the start of `input`.
    pub fn from(input: &str) -> (it: Self)
        ensures
            it.remaining() == input@,
    {
        let chars = to_chars(input);
        assert(chars@.subrange(0, chars@.len() as int) =~= chars@);
        LinesWithEndings { input: chars, pos: 0 }
    }

    /// A cursor at the start of the characters `input`.
    pub fn from_chars(input: Vec<char>) -> (it: Self)
        ensures
            it.remaining() == input@,
    {
        assert(input@.subrange(0, input@.len() as int) =~= input@);
        LinesWithEndings { input, pos: 0 }
    }

    /// The next line as characters, or `None` at the end of the text.
    pub fn next_chars(&mut self) -> (line: Option<Vec<char>>)
        ensures
            old(self).remaining().len() == 0 ==> line is None && final(self).remaining()
                == old(self).remaining(),
            old(self).remaining().len() > 0 ==> line is Some && line.unwrap()@ == first_line(
                old(self).remaining(),
            ) && final(self).remaining() == after_first_line(old(self).remaining()),
    {
        let n = self.input.len();
        if self.pos >= n {
            return None;
        }
        let ghost rem = self.remaining();
        let start = self.pos;
        let mut line: Vec<char> = Vec::new();
        let mut i: usize = start;
        let mut ended = false;
        assert(rem.subrange(0, rem.len() as int) =~= rem);
        while i < n && !ended
            invariant
                start <= i <= n,
                n == self.input@.len(),
                self.pos == start,
                rem == self.input@.subrange(start as int, n as int),
                line@ == self.input@.subrange(start as int, i as int),
                !ended ==> first_line_len(rem) == (i - start) + first_line_len(
                    rem.subrange(i - start, rem.len() as int),
                ),
                ended ==> first_line_len(rem) == i - start,
            decreases n - i,
        {
            let c = self.input[i];
            let ghost tail = rem.subrange(i - start, rem.len() as int);
            assert(tail[0] == c);
            assert(tail.drop_first() =~= rem.subrange(i + 1 - start, rem.len() as int));
            line.push(c);
            i += 1;
            if c == '\n' {
                ended = true;
            }
            assert(line@ =~= self.input@.subrange(start as int, i as int));
        }
        proof {
            if !ended {
                assert(rem.subrange(i - start, rem.len() as int).len() == 0);
            }
            assert(line@ =~= first_line(rem));
        }
        self.pos = i;
        assert(self.remaining() =~= after_first_line(rem));
        Some(line)
    }

    /// The next line, or `None` at the end of the text.
    pub fn next(&mut self) -> (line: Option<String>)
        ensures
            old(self).remaining().len() == 0 ==> line is None && final(self).remaining()
                == old(self).remaining(),
            old(self).remaining().len() > 0 ==> line is Some && line.unwrap()@ == first_line(
                old(self).remaining(),
            ) && final(self).remaining() == after_first_line(old(self).remaining()),
    {
        match self.next_chars() {
            Some(chars) => Some(to_text(&chars)),
            None => None,
        }
    }
}

} // verus!
