//! Joining pieces of text with a separator.

use vstd::prelude::*;
use vstd::string::*;

verus! {

/// The texts of `items`, in order.
pub open spec fn texts(items: Seq<String>) -> Seq<Seq<char>> {
    items.map_values(|s: String| s@)
}

/// The first `n` of `parts`, with `sep` between each two neighbours.
pub open spec fn joined_prefix(parts: Seq<Seq<char>>, sep: Seq<char>, n: nat) -> Seq<char>
    decreases n,
{
    if n == 0 {
        Seq::<char>::empty()
    } else if n == 1 {
        parts[0]
    } else {
        joined_prefix(parts, sep, (n - 1) as nat) + sep + parts[n - 1]
    }
}

/// All of `parts`, with `sep` between each two neighbours.
pub open spec fn joined(parts: Seq<Seq<char>>, sep: Seq<char>) -> Seq<char> {
    joined_prefix(parts, sep, parts.len())
}

/// `parts` between `open` and `close`, or nothing where there are no parts.
pub open spec fn bracketed(
    open: Seq<char>,
    parts: Seq<Seq<char>>,
    sep: Seq<char>,
    close: Seq<char>,
) -> Seq<char> {
    if parts.len() == 0 {
        Seq::<char>::empty()
    } else {
        open + joined(parts, sep) + close
    }
}

/// Whether `needle` occurs in `hay` as a run of neighbouring characters.
pub open spec fn occurs_in(needle: Seq<char>, hay: Seq<char>) -> bool {
    exists|at: int|
        0 <= at && at + needle.len() <= hay.len() && #[trigger] hay.subrange(
            at,
            at + needle.len(),
        ) == needle
}

/// Appends to `out` the items of `parts`, with `sep` between each two.
pub fn append_joined(out: &mut String, parts: &Vec<String>, sep: &str)
    ensures
        final(out)@ == old(out)@ + joined(texts(parts@), sep@),
{
    let ghost before = out@;
    let mut i: usize = 0;
    while i < parts.len()
        invariant
            i <= parts.len(),
            out@ == before + joined_prefix(texts(parts@), sep@, i as nat),
        decreases parts.len() - i,
    {
        if i > 0 {
            out.append(sep);
        }
        out.append(parts[i].as_str());
        proof {
            let t = texts(parts@);
            assert(t[i as int] == parts@[i as int]@);
            if i > 0 {
                assert(out@ =~= before + (joined_prefix(t, sep@, i as nat) + sep@ + t[i as int]));
            } else {
                assert(out@ =~= before + t[0]);
            }
        }
        i += 1;
    }
}

} // verus!
