//! Small verified helpers over characters and bytes that the stages share.

use vstd::prelude::*;

verus! {

/// The characters of `text`, in order.
pub fn chars_of(text: &str) -> (chars: Vec<char>)
    ensures
        chars@ == text@,
{
    let mut chars: Vec<char> = Vec::new();
    for c in it: text.chars()
        invariant
            it.seq() == text@,
            chars@ == it.seq().subrange(0, it.index() as int),
    {
        chars.push(c);
    }
    chars
}

/// Whether the two sequences hold the same characters.
pub fn same_chars(left: &Vec<char>, right: &Vec<char>) -> (same: bool)
    ensures
        same == (left@ == right@),
{
    if left.len() != right.len() {
        return false;
    }
    let mut i: usize = 0;
    while i < left.len()
        invariant
            i <= left.len(),
            left.len() == right.len(),
            forall|j: int| 0 <= j < i ==> left@[j] == right@[j],
        decreases left.len() - i,
    {
        if left[i] != right[i] {
            return false;
        }
        i += 1;
    }
    assert(left@ =~= right@);
    true
}

/// Whether `whole` begins with `part`.
pub fn starts_with(whole: &Vec<char>, part: &Vec<char>) -> (yes: bool)
    ensures
        yes == part@.is_prefix_of(whole@),
{
    if part.len() > whole.len() {
        return false;
    }
    let mut i: usize = 0;
    while i < part.len()
        invariant
            i <= part.len() <= whole.len(),
            forall|j: int| 0 <= j < i ==> part@[j] == whole@[j],
        decreases part.len() - i,
    {
        if part[i] != whole[i] {
            assert(whole@.subrange(0, part@.len() as int)[i as int] != part@[i as int]);
            return false;
        }
        i += 1;
    }
    assert(part@ =~= whole@.subrange(0, part@.len() as int));
    true
}

/// Whether `whole` ends with `part`.
pub fn ends_with(whole: &Vec<char>, part: &Vec<char>) -> (yes: bool)
    ensures
        yes == part@.is_suffix_of(whole@),
{
    if part.len() > whole.len() {
        return false;
    }
    let shift: usize = whole.len() - part.len();
    let mut i: usize = 0;
    while i < part.len()
        invariant
            i <= part.len() <= whole.len(),
            shift == whole.len() - part.len(),
            forall|j: int| 0 <= j < i ==> part@[j] == whole@[shift + j],
        decreases part.len() - i,
    {
        if part[i] != whole[shift + i] {
            assert(whole@.subrange(shift as int, whole@.len() as int)[i as int] != part@[i as int]);
            return false;
        }
        i += 1;
    }
    assert(part@ =~= whole@.subrange(shift as int, whole@.len() as int));
    true
}

/// The first position at or after `from` that holds `mark`, or the length
/// of `text` where none does.
pub open spec fn position_of(text: Seq<char>, mark: char, from: int) -> int
    decreases text.len() - from,
{
    if from < 0 || from >= text.len() {
        text.len() as int
    } else if text[from] == mark {
        from
    } else {
        position_of(text, mark, from + 1)
    }
}

/// Finds `position_of(text, mark, from)`.
pub fn find_char(text: &Vec<char>, mark: char, from: usize) -> (at: usize)
    requires
        from <= text.len(),
    ensures
        at == position_of(text@, mark, from as int),
        from <= at <= text.len(),
{
    let mut i: usize = from;
    while i < text.len() && text[i] != mark
        invariant
            from <= i <= text.len(),
            position_of(text@, mark, from as int) == position_of(text@, mark, i as int),
        decreases text.len() - i,
    {
        i += 1;
    }
    i
}

/// Compares `probe` with `fixed` without stopping at the first difference:
/// the loop always runs over the whole of `fixed`, so the work done depends
/// on the length of `fixed` alone, whatever `probe` holds.
pub fn constant_time_eq(fixed: &[u8], probe: &[u8]) -> (same: bool)
    ensures
        same == (fixed@ == probe@),
{
    let n: usize = fixed.len();
    let m: usize = probe.len();
    let mut diff: u8 = if n == m { 0 } else { 1 };
    let mut i: usize = 0;
    while i < n
        invariant
            i <= n,
            n == fixed@.len(),
            m == probe@.len(),
            diff == 0 <==> (n == m && forall|j: int| 0 <= j < i ==> fixed@[j] == probe@[j]),
        decreases n - i,
    {
        let x: u8 = fixed[i];
        let y: u8 = if i < m { probe[i] } else { 0 };
        let folded: u8 = diff | (x ^ y);
        assert(folded == 0 <==> (diff == 0 && x == y)) by (bit_vector)
            requires
                folded == diff | (x ^ y),
        ;
        diff = folded;
        i += 1;
    }
    if diff == 0 {
        assert(fixed@ =~= probe@);
    }
    diff == 0
}

/// The `width` characters of `text` that begin at `at`.
pub open spec fn window(text: Seq<char>, at: int, width: int) -> Seq<char> {
    text.subrange(at, at + width)
}

/// Whether `needle` stands somewhere in `text` as an unbroken run. The
/// empty text stands everywhere.
pub open spec fn occurs_in(needle: Seq<char>, text: Seq<char>) -> bool {
    exists|at: int|
        0 <= at && at + needle.len() <= text.len() && #[trigger] window(
            text,
            at,
            needle.len() as int,
        ) == needle
}

/// Whether `needle` stands in `text` at `at`.
fn stands_at(text: &Vec<char>, needle: &Vec<char>, at: usize) -> (yes: bool)
    requires
        at + needle.len() <= text.len(),
    ensures
        yes == (window(text@, at as int, needle@.len() as int) == needle@),
{
    let mut i: usize = 0;
    while i < needle.len()
        invariant
            i <= needle.len(),
            at + needle.len() <= text.len(),
            forall|j: int| 0 <= j < i ==> needle@[j] == text@[at + j],
        decreases needle.len() - i,
    {
        if needle[i] != text[at + i] {
            assert(window(text@, at as int, needle@.len() as int)[i as int] != needle@[i as int]);
            return false;
        }
        i += 1;
    }
    assert(window(text@, at as int, needle@.len() as int) =~= needle@);
    true
}

/// Whether `needle` stands somewhere in `text`.
pub fn holds_text(text: &Vec<char>, needle: &Vec<char>) -> (yes: bool)
    ensures
        yes == occurs_in(needle@, text@),
{
    if needle.len() > text.len() {
        return false;
    }
    if needle.len() == 0 {
        assert(window(text@, 0, 0) =~= needle@);
        return true;
    }
    let last: usize = text.len() - needle.len();
    let mut at: usize = 0;
    while at <= last
        invariant
            at <= last + 1,
            needle.len() >= 1,
            last == text.len() - needle.len(),
            forall|k: int| 0 <= k < at ==> #[trigger] window(text@, k, needle@.len() as int)
                != needle@,
        decreases last + 1 - at,
    {
        if stands_at(text, needle, at) {
            return true;
        }
        at += 1;
    }
    false
}

} // verus!
