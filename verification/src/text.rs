//! Text that is built piece by piece and laid out in columns.

use vstd::prelude::*;
use vstd::string::*;

verus! {

/// `n` copies of one character.
pub open spec fn repeated(c: char, n: nat) -> Seq<char> {
    Seq::new(n, |i: int| c)
}

/// The spaces that bring a text of length `len` to `width`; none when it is
/// that wide already.
pub open spec fn filler(len: nat, width: nat) -> Seq<char> {
    repeated(
        ' ',
        if len < width {
            (width - len) as nat
        } else {
            0
        },
    )
}

/// `s` at the left of a column `width` characters wide. A longer text is kept whole.
pub open spec fn left_aligned(s: Seq<char>, width: nat) -> Seq<char> {
    s + filler(s.len(), width)
}

/// `s` at the right of a column `width` characters wide. A longer text is kept whole.
pub open spec fn right_aligned(s: Seq<char>, width: nat) -> Seq<char> {
    filler(s.len(), width) + s
}

/// Whether two texts hold the same characters.
pub fn same_text(a: &str, b: &str) -> (same: bool)
    ensures
        same == (a@ == b@),
{
    a.to_owned() == b.to_owned()
}

/// The characters of a text, one by one.
pub fn characters(s: &str) -> (out: Vec<char>)
    ensures
        out@ == s@,
{
    let mut out: Vec<char> = Vec::new();
    for c in it: s.chars()
        invariant
            out@ == it.seq().take(it.index()),
            it.seq() == s@,
    {
        out.push(c);
    }
    out
}

/// `times` copies of `unit`, a text of one character.
pub fn repeat(unit: &str, times: usize) -> (out: String)
    requires
        unit@.len() == 1,
    ensures
        out@ == repeated(unit@[0], times as nat),
{
    let mut out = String::new();
    let mut done: usize = 0;
    while done < times
        invariant
            done <= times,
            unit@.len() == 1,
            out@ =~= repeated(unit@[0], done as nat),
        decreases times - done,
    {
        out.append(unit);
        done = done + 1;
    }
    out
}

/// The spaces of [`filler`].
fn padding(len: usize, width: usize) -> (out: String)
    ensures
        out@ == filler(len as nat, width as nat),
{
    proof {
        reveal_strlit(" ");
    }
    if len < width {
        repeat(" ", width - len)
    } else {
        repeat(" ", 0)
    }
}

/// Puts `s` at the left of a column.
pub fn align_left(s: &str, width: usize) -> (out: String)
    ensures
        out@ == left_aligned(s@, width as nat),
{
    let mut out = s.to_owned();
    let pad = padding(s.unicode_len(), width);
    out.append(pad.as_str());
    out
}

/// Puts `s` at the right of a column.
pub fn align_right(s: &str, width: usize) -> (out: String)
    ensures
        out@ == right_aligned(s@, width as nat),
{
    let mut out = padding(s.unicode_len(), width);
    out.append(s);
    out
}

/// The three pieces one after the other.
pub fn join3(a: &str, b: &str, c: &str) -> (out: String)
    ensures
        out@ == a@ + b@ + c@,
{
    let mut out = a.to_owned();
    out.append(b);
    out.append(c);
    out
}

/// A text that fits its column fills the column exactly, on whichever side it is put.
pub proof fn law_alignment_fills_the_column(s: Seq<char>, width: nat)
    requires
        s.len() <= width,
    ensures
        left_aligned(s, width).len() == width,
        right_aligned(s, width).len() == width,
        left_aligned(s, width).take(s.len() as int) == s,
        right_aligned(s, width).skip(width - s.len()) == s,
{
    assert(left_aligned(s, width).take(s.len() as int) =~= s);
    assert(right_aligned(s, width).skip(width - s.len()) =~= s);
}

/// Copies of one character are as many as were asked for, and hold nothing else.
pub proof fn law_copies_are_uniform(c: char, n: nat)
    ensures
        repeated(c, n).len() == n,
        forall|i: int| 0 <= i < n ==> #[trigger] repeated(c, n)[i] == c,
{
}

/// Aligning a text adds spaces on one side and nothing else: the text itself
/// stays whole, and a text that is too wide for its column stays as it is.
pub proof fn law_alignment_adds_only_spaces(s: Seq<char>, width: nat)
    ensures
        ({
            let wide = if s.len() < width {
                width as int
            } else {
                s.len() as int
            };
            let left = left_aligned(s, width);
            let right = right_aligned(s, width);
            &&& left.len() == wide
            &&& right.len() == wide
            &&& left.take(s.len() as int) == s
            &&& right.skip(wide - s.len()) == s
            &&& forall|i: int| s.len() <= i < wide ==> #[trigger] left[i] == ' '
            &&& forall|i: int| 0 <= i < wide - s.len() ==> #[trigger] right[i] == ' '
        }),
{
    let wide = if s.len() < width {
        width as int
    } else {
        s.len() as int
    };
    assert(left_aligned(s, width).take(s.len() as int) =~= s);
    assert(right_aligned(s, width).skip(wide - s.len()) =~= s);
}

} // verus!
