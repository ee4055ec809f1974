//! Text building blocks: joining lines, padding columns, decimal numbers.

use itertools::Itertools;
use vstd::prelude::*;

verus! {

/// `parts` with `sep` between each two of them.
pub open spec fn joined(parts: Seq<Seq<char>>, sep: Seq<char>) -> Seq<char>
    decreases parts.len(),
{
    if parts.len() == 0 {
        Seq::empty()
    } else if parts.len() == 1 {
        parts[0]
    } else {
        joined(parts.drop_last(), sep) + sep + parts.last()
    }
}

/// The character sequences of a list of strings.
pub open spec fn views(parts: Seq<String>) -> Seq<Seq<char>> {
    parts.map_values(|p: String| p@)
}

/// The character sequence of an optional string.
pub open spec fn opt_view(s: Option<String>) -> Option<Seq<char>> {
    match s {
        None => None,
        Some(t) => Some(t@),
    }
}

/// Relies on itertools::Itertools::join over strings: each item's text,
/// with `sep` written between each two items; empty for no items.
#[verifier::external_body]
pub(crate) fn join_with(parts: &Vec<String>, sep: &str) -> (r: String)
    ensures
        r@ == joined(views(parts@), sep@),
{
    parts.iter().join(sep)
}

/// `s` followed by spaces up to `width` characters; unchanged if it is
/// already that long.
pub open spec fn padded(s: Seq<char>, width: nat) -> Seq<char> {
    if s.len() >= width {
        s
    } else {
        s + Seq::new((width - s.len()) as nat, |_i: int| ' ')
    }
}

/// Appends `s` to `out`, padded with spaces to `width` characters.
pub fn push_padded(out: &mut String, s: &str, width: usize)
    ensures
        final(out)@ == old(out)@ + padded(s@, width as nat),
{
    let ghost start = out@;
    out.append(s);
    let len = s.unicode_len();
    let mut k: usize = len;
    proof {
        reveal_strlit(" ");
        assert(Seq::new(0, |_i: int| ' ') =~= Seq::<char>::empty());
        assert(out@ =~= start + s@ + Seq::new(0, |_i: int| ' '));
    }
    while k < width
        invariant
            len == s@.len(),
            len <= k,
            k <= width || k == len,
            out@ == start + s@ + Seq::new((k - len) as nat, |_i: int| ' '),
        decreases width - k,
    {
        let ghost before = out@;
        out.append(" ");
        proof {
            reveal_strlit(" ");
            assert(" "@ =~= seq![' ']);
            assert(out@ =~= before.push(' '));
            assert(Seq::new((k - len) as nat, |_i: int| ' ').push(' ') =~= Seq::new(
                (k + 1 - len) as nat,
                |_i: int| ' ',
            ));
            assert(out@ =~= start + s@ + Seq::new((k + 1 - len) as nat, |_i: int| ' '));
        }
        k += 1;
    }
    proof {
        if len >= width {
            assert(Seq::new((k - len) as nat, |_i: int| ' ') =~= Seq::<char>::empty());
            assert(out@ =~= start + s@);
        } else {
            assert(out@ =~= start + (s@ + Seq::new((width - len) as nat, |_i: int| ' ')));
        }
    }
}

/// The decimal digit characters, indexed by their value.
pub open spec fn digit(d: nat) -> Seq<char> {
    "0123456789"@.subrange(d as int, d + 1 as int)
}

/// The decimal text of `n`, without leading zeros.
pub open spec fn decimal(n: nat) -> Seq<char>
    decreases n,
{
    if n < 10 {
        digit(n)
    } else {
        decimal(n / 10) + digit(n % 10)
    }
}

/// The decimal text of `n`.
pub fn decimal_text(n: u64) -> (r: String)
    ensures
        r@ == decimal(n as nat),
    decreases n,
{
    proof {
        reveal_strlit("0123456789");
    }
    let d = (n % 10) as usize;
    let last = "0123456789".substring_char(d, d + 1);
    if n < 10 {
        String::from_str(last)
    } else {
        let mut s = decimal_text(n / 10);
        s.append(last);
        s
    }
}

} // verus!
