use vstd::prelude::*;
use vstd::utf8::encode_utf8;

verus! {

/// The length in bytes of the UTF-8 encoding of `s`.
pub open spec fn byte_len(s: Seq<char>) -> nat {
    encode_utf8(s).len()
}

/// The decimal digit for `d`, for `d < 10`.
pub open spec fn digit_char(d: nat) -> char {
    seq!['0', '1', '2', '3', '4', '5', '6', '7', '8', '9'][d as int]
}

/// The decimal notation of `n`, without leading zeros.
pub open spec fn decimal(n: nat) -> Seq<char>
    decreases n,
{
    if n < 10 {
        seq![digit_char(n)]
    } else {
        decimal(n / 10).push(digit_char(n % 10))
    }
}

/// `n` space characters.
pub open spec fn spaces(n: nat) -> Seq<char> {
    Seq::new(n, |i: int| ' ')
}

/// `s` left-aligned in a field of `width` characters: spaces fill the rest;
/// a longer `s` is kept whole.
pub open spec fn pad_right(s: Seq<char>, width: nat) -> Seq<char> {
    if s.len() >= width {
        s
    } else {
        s + spaces((width - s.len()) as nat)
    }
}

/// The parts written one after another.
pub open spec fn joined(parts: Seq<Seq<char>>) -> Seq<char>
    decreases parts.len(),
{
    if parts.len() == 0 {
        Seq::empty()
    } else {
        joined(parts.drop_last()) + parts.last()
    }
}

/// Joining the first `i + 1` parts adds part `i` to the first `i`.
pub proof fn lemma_joined_prefix(parts: Seq<Seq<char>>, i: int)
    requires
        0 <= i < parts.len(),
    ensures
        joined(parts.subrange(0, i + 1)) == joined(parts.subrange(0, i)) + parts[i],
{
    assert(parts.subrange(0, i + 1).drop_last() =~= parts.subrange(0, i));
}

/// The byte length of `s`.
pub fn byte_length(s: &str) -> (r: usize)
    ensures
        r == byte_len(s@),
{
    s.as_bytes().len()
}

/// Appends `s` to `out`, left-aligned in a field of `width` characters.
pub fn push_padded(out: &mut String, s: &str, width: usize)
    ensures
        final(out)@ == old(out)@ + pad_right(s@, width as nat),
{
    let ghost start = out@;
    out.append(s);
    let n = s.unicode_len();
    let mut k = n;
    proof {
        reveal_strlit(" ");
        assert(s@ + spaces(0) =~= s@);
    }
    while k < width
        invariant
            n == s@.len(),
            n <= k,
            k == n || k <= width,
            out@ == start + s@ + spaces((k - n) as nat),
            " "@ == seq![' '],
        decreases width - k,
    {
        out.append(" ");
        proof {
            assert(spaces((k - n) as nat) + seq![' '] =~= spaces((k + 1 - n) as nat));
            assert(start + s@ + spaces((k - n) as nat) + seq![' '] =~= start + s@ + spaces(
                (k + 1 - n) as nat,
            ));
        }
        k = k + 1;
    }
    proof {
        if n >= width {
            assert(start + s@ + spaces(0) =~= start + s@);
        } else {
            assert(start + s@ + spaces((width - n) as nat) =~= start + (s@ + spaces(
                (width - n) as nat,
            )));
        }
    }
}

} // verus!
