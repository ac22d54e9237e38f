//! Byte-level text utilities shared by the supervisor components: ASCII
//! whitespace trimming, carriage-return stripping and bounded suffixes,
//! each with an exact sequence-level contract.

use vstd::prelude::*;

verus! {

/// ASCII whitespace: space, tab, line feed, carriage return, form feed.
pub open spec fn is_ws_byte(b: u8) -> bool {
    b == 32 || b == 9 || b == 10 || b == 13 || b == 12
}

pub open spec fn trim_front_bytes(s: Seq<u8>) -> Seq<u8>
    decreases s.len(),
{
    if s.len() > 0 && is_ws_byte(s[0]) {
        trim_front_bytes(s.drop_first())
    } else {
        s
    }
}

pub open spec fn trim_back_bytes(s: Seq<u8>) -> Seq<u8>
    decreases s.len(),
{
    if s.len() > 0 && is_ws_byte(s.last()) {
        trim_back_bytes(s.drop_last())
    } else {
        s
    }
}

/// The sequence with ASCII whitespace removed from both ends.
pub open spec fn trim_bytes(s: Seq<u8>) -> Seq<u8> {
    trim_back_bytes(trim_front_bytes(s))
}

fn is_ws(b: u8) -> (r: bool)
    ensures
        r == is_ws_byte(b),
{
    b == 32 || b == 9 || b == 10 || b == 13 || b == 12
}

/// Strips ASCII whitespace from both ends of a byte slice.
pub fn trim_ascii(s: &[u8]) -> (r: &[u8])
    ensures
        r@ == trim_bytes(s@),
{
    let mut i: usize = 0;
    proof {
        assert(s@.skip(0) =~= s@);
    }
    while i < s.len() && is_ws(s[i])
        invariant
            i <= s.len(),
            trim_front_bytes(s@) == trim_front_bytes(s@.skip(i as int)),
        decreases s.len() - i,
    {
        proof {
            assert(s@.skip(i as int)[0] == s@[i as int]);
            assert(s@.skip(i as int).drop_first() =~= s@.skip(i as int + 1));
        }
        i += 1;
    }
    proof {
        assert(trim_front_bytes(s@) == s@.skip(i as int));
    }
    let mut j: usize = s.len();
    while j > i && is_ws(s[j - 1])
        invariant
            i <= j <= s.len(),
            trim_front_bytes(s@) == s@.skip(i as int),
            trim_back_bytes(s@.subrange(i as int, s.len() as int)) == trim_back_bytes(
                s@.subrange(i as int, j as int),
            ),
        decreases j,
    {
        proof {
            assert(s@.subrange(i as int, j as int).last() == s@[j - 1]);
            assert(s@.subrange(i as int, j as int).drop_last() =~= s@.subrange(
                i as int,
                j as int - 1,
            ));
        }
        j -= 1;
    }
    proof {
        assert(trim_back_bytes(s@.subrange(i as int, j as int)) == s@.subrange(i as int, j as int));
        assert(s@.skip(i as int) =~= s@.subrange(i as int, s.len() as int));
    }
    &s[i..j]
}

/// The sequence with every carriage return removed, order kept.
pub open spec fn strip_cr_bytes(s: Seq<u8>) -> Seq<u8>
    decreases s.len(),
{
    if s.len() == 0 {
        Seq::empty()
    } else if s.last() == 13 {
        strip_cr_bytes(s.drop_last())
    } else {
        strip_cr_bytes(s.drop_last()).push(s.last())
    }
}

/// Removes every carriage return from a byte slice.
pub fn strip_cr(s: &[u8]) -> (r: Vec<u8>)
    ensures
        r@ == strip_cr_bytes(s@),
{
    let mut out: Vec<u8> = Vec::new();
    let mut i: usize = 0;
    while i < s.len()
        invariant
            i <= s.len(),
            out@ == strip_cr_bytes(s@.take(i as int)),
        decreases s.len() - i,
    {
        proof {
            assert(s@.take(i as int + 1).drop_last() =~= s@.take(i as int));
            assert(s@.take(i as int + 1).last() == s@[i as int]);
        }
        if s[i] != 13 {
            out.push(s[i]);
        }
        i += 1;
    }
    proof {
        assert(s@.take(s.len() as int) =~= s@);
    }
    out
}

/// The first `n` elements, or the whole sequence if it is shorter.
pub open spec fn prefix_bytes(s: Seq<u8>, n: int) -> Seq<u8> {
    if s.len() <= n {
        s
    } else {
        s.take(n)
    }
}

/// The first `n` bytes of a slice, or all of it if it is shorter.
pub fn prefix(s: &[u8], n: usize) -> (r: &[u8])
    ensures
        r@ == prefix_bytes(s@, n as int),
{
    if s.len() <= n {
        proof {
            assert(s@.subrange(0, s.len() as int) =~= s@);
        }
        &s[0..s.len()]
    } else {
        proof {
            assert(s@.subrange(0, n as int) =~= s@.take(n as int));
        }
        &s[0..n]
    }
}

/// The last `n` elements, or the whole sequence if it is shorter.
pub open spec fn suffix_bytes(s: Seq<u8>, n: int) -> Seq<u8> {
    if s.len() > n {
        s.skip(s.len() - n)
    } else {
        s
    }
}

/// The last `n` bytes of a slice, or all of it if it is shorter.
pub fn suffix(s: &[u8], n: usize) -> (r: &[u8])
    ensures
        r@ == suffix_bytes(s@, n as int),
{
    if s.len() > n {
        proof {
            assert(s@.subrange(s.len() - n, s.len() as int) =~= s@.skip(s.len() - n));
        }
        &s[s.len() - n..s.len()]
    } else {
        proof {
            assert(s@.subrange(0, s.len() as int) =~= s@);
        }
        &s[0..s.len()]
    }
}

} // verus!
