//! Byte-level text helpers for building payloads: JSON string escaping,
//! decimal rendering of unsigned numbers, and substring search over text.

use vstd::prelude::*;

verus! {

/// The byte for one hexadecimal digit, lower case.
pub open spec fn hex_digit(d: int) -> u8
    recommends
        0 <= d < 16,
{
    if d < 10 {
        (48 + d) as u8
    } else {
        (87 + d) as u8
    }
}

/// How one payload byte appears inside a JSON string literal: quote and
/// backslash get a backslash escape, control bytes get a `\u00XX` escape,
/// and every other byte stands for itself. Bytes of a multi-byte UTF-8
/// sequence are all at least 128, so escaping bytes never splits a
/// character.
pub open spec fn escaped_byte(b: u8) -> Seq<u8> {
    if b == 34 {
        seq![92u8, 34u8]
    } else if b == 92 {
        seq![92u8, 92u8]
    } else if b < 32 {
        seq![92u8, 117u8, 48u8, 48u8, hex_digit(b as int / 16), hex_digit(b as int % 16)]
    } else {
        seq![b]
    }
}

/// A byte sequence escaped for use inside a JSON string literal.
pub open spec fn spec_escape(s: Seq<u8>) -> Seq<u8>
    decreases s.len(),
{
    if s.len() == 0 {
        Seq::empty()
    } else {
        escaped_byte(s[0]) + spec_escape(s.drop_first())
    }
}

proof fn lemma_escape_snoc(s: Seq<u8>, b: u8)
    ensures
        spec_escape(s.push(b)) == spec_escape(s) + escaped_byte(b),
    decreases s.len(),
{
    if s.len() == 0 {
        assert(s.push(b).drop_first() =~= Seq::<u8>::empty());
        assert(s.push(b)[0] == b);
        assert(spec_escape(s.push(b)) == escaped_byte(b) + spec_escape(s.push(b).drop_first()));
        assert(spec_escape(s.push(b)) =~= spec_escape(s) + escaped_byte(b));
    } else {
        assert(s.push(b).drop_first() =~= s.drop_first().push(b));
        assert(s.push(b)[0] == s[0]);
        lemma_escape_snoc(s.drop_first(), b);
        assert(spec_escape(s.push(b)) == escaped_byte(s[0]) + spec_escape(s.drop_first().push(b)));
        assert(spec_escape(s.push(b)) =~= spec_escape(s) + escaped_byte(b));
    }
}

/// Escape the bytes of a text for use inside a JSON string literal.
pub fn escape_json(s: &[u8]) -> (r: Vec<u8>)
    ensures
        r@ == spec_escape(s@),
{
    let mut r: Vec<u8> = Vec::new();
    let mut i: usize = 0;
    while i < s.len()
        invariant
            i <= s@.len(),
            r@ == spec_escape(s@.take(i as int)),
        decreases s@.len() - i,
    {
        let b = s[i];
        proof {
            lemma_escape_snoc(s@.take(i as int), b);
            assert(s@.take(i as int).push(b) =~= s@.take(i + 1));
        }
        if b == 34 {
            r.push(92);
            r.push(34);
        } else if b == 92 {
            r.push(92);
            r.push(92);
        } else if b < 32 {
            r.push(92);
            r.push(117);
            r.push(48);
            r.push(48);
            let hi = b / 16;
            let lo = b % 16;
            r.push(if hi < 10 { 48 + hi } else { 87 + hi });
            r.push(if lo < 10 { 48 + lo } else { 87 + lo });
        } else {
            r.push(b);
        }
        proof {
            assert(r@ =~= spec_escape(s@.take(i + 1)));
        }
        i = i + 1;
    }
    proof {
        assert(s@.take(s@.len() as int) =~= s@);
    }
    r
}

/// The decimal digits of a number, most significant first, with no sign
/// and no leading zero except for the number zero itself.
pub open spec fn spec_dec(n: nat) -> Seq<u8>
    decreases n,
{
    if n < 10 {
        seq![(48 + n) as u8]
    } else {
        spec_dec(n / 10) + seq![(48 + n % 10) as u8]
    }
}

/// Render a number in decimal.
pub fn u64_dec(n: u64) -> (r: Vec<u8>)
    ensures
        r@ == spec_dec(n as nat),
    decreases n,
{
    if n < 10 {
        let mut r: Vec<u8> = Vec::new();
        r.push(48 + (n as u8));
        proof {
            assert(r@ =~= spec_dec(n as nat));
        }
        r
    } else {
        let mut r = u64_dec(n / 10);
        r.push(48 + ((n % 10) as u8));
        proof {
            assert(r@ =~= spec_dec(n as nat));
        }
        r
    }
}

/// Escaping distributes over concatenation.
pub proof fn lemma_escape_concat(a: Seq<u8>, b: Seq<u8>)
    ensures
        spec_escape(a + b) == spec_escape(a) + spec_escape(b),
    decreases a.len(),
{
    if a.len() == 0 {
        assert(a + b =~= b);
        assert(spec_escape(a) =~= Seq::<u8>::empty());
        assert(spec_escape(a + b) =~= spec_escape(a) + spec_escape(b));
    } else {
        assert((a + b).drop_first() =~= a.drop_first() + b);
        assert((a + b)[0] == a[0]);
        lemma_escape_concat(a.drop_first(), b);
        assert(spec_escape(a + b) == escaped_byte(a[0]) + spec_escape(a.drop_first() + b));
        assert(spec_escape(a + b) =~= spec_escape(a) + spec_escape(b));
    }
}

/// A sequence whose bytes all escape to themselves is left unchanged.
proof fn lemma_escape_identity(s: Seq<u8>)
    requires
        forall|i: int| 0 <= i < s.len() ==> #[trigger] escaped_byte(s[i]) == seq![s[i]],
    ensures
        spec_escape(s) == s,
    decreases s.len(),
{
    if s.len() > 0 {
        lemma_escape_identity(s.drop_first());
        assert(spec_escape(s) == escaped_byte(s[0]) + spec_escape(s.drop_first()));
        assert(spec_escape(s) =~= s);
    }
}

/// A sequence of bytes below 128 is valid UTF-8: each byte stands for
/// one scalar of its own.
proof fn lemma_ascii_bytes_valid(s: Seq<u8>)
    requires
        forall|i: int| 0 <= i < s.len() ==> s[i] < 0x80,
    ensures
        vstd::utf8::valid_utf8(s),
    decreases s.len(),
{
    if s.len() > 0 {
        assert(vstd::utf8::valid_first_scalar(s));
        assert(vstd::utf8::length_of_first_scalar(s) == 1);
        assert(vstd::utf8::pop_first_scalar(s) =~= s.drop_first());
        lemma_ascii_bytes_valid(s.drop_first());
    }
}

/// Every byte an escaped low byte produces is itself below 128.
proof fn lemma_escaped_byte_low(b: u8)
    requires
        b < 0x80,
    ensures
        forall|i: int| 0 <= i < escaped_byte(b).len() ==> escaped_byte(b)[i] < 0x80,
{
}

/// Escaping the encoding of any text yields valid UTF-8: the bytes of a
/// multi-byte character all lie at or above 128 and pass through
/// untouched, and every substitution emitted for a low byte is itself
/// low.
pub proof fn lemma_escaped_text_valid(t: Seq<char>)
    ensures
        vstd::utf8::valid_utf8(spec_escape(vstd::utf8::encode_utf8(t))),
    decreases t.len(),
{
    if t.len() == 0 {
        assert(vstd::utf8::encode_utf8(t).len() == 0);
    } else {
        let c = t[0];
        let sc = c as u32;
        vstd::utf8::char_is_scalar(c);
        let head = vstd::utf8::encode_scalar(sc);
        let tail = vstd::utf8::encode_utf8(t.drop_first());
        assert(vstd::utf8::encode_utf8(t) == head + tail);
        lemma_escape_concat(head, tail);
        lemma_escaped_text_valid(t.drop_first());
        if sc <= 0x7F {
            let b = vstd::utf8::leading_byte_width_1(sc);
            assert(b < 0x80) by (bit_vector)
                requires
                    b == (sc & 0x7F) as u8,
            ;
            assert(head =~= seq![b]);
            assert(head.drop_first() =~= Seq::<u8>::empty());
            assert(spec_escape(head.drop_first()).len() == 0);
            assert(spec_escape(head) == escaped_byte(head[0]) + spec_escape(head.drop_first()));
            assert(spec_escape(head) =~= escaped_byte(b));
            lemma_escaped_byte_low(b);
            lemma_ascii_bytes_valid(escaped_byte(b));
        } else {
            assert(forall|i: int|
                0 <= i < head.len() ==> #[trigger] head[i] >= 0x80) by {
                lemma_encode_scalar_bytes_high(sc);
            }
            assert(forall|i: int| 0 <= i < head.len() ==> #[trigger] escaped_byte(head[i])
                == seq![head[i]]);
            lemma_escape_identity(head);
            vstd::utf8::encode_utf8_valid_utf8(seq![c]);
            assert(vstd::utf8::encode_utf8(seq![c]) =~= head) by {
                assert(seq![c].drop_first() =~= Seq::<char>::empty());
                assert(vstd::utf8::encode_utf8(seq![c].drop_first()).len() == 0);
            }
        }
        vstd::utf8::valid_utf8_concat(spec_escape(head), spec_escape(tail));
        assert(vstd::utf8::valid_utf8(spec_escape(vstd::utf8::encode_utf8(t))));
    }
}

/// Every byte of the multi-byte encoding of a scalar at or above 128 is
/// itself at or above 128.
proof fn lemma_encode_scalar_bytes_high(sc: u32)
    requires
        sc > 0x7F,
    ensures
        forall|i: int| 0 <= i < vstd::utf8::encode_scalar(sc).len()
            ==> #[trigger] vstd::utf8::encode_scalar(sc)[i] >= 0x80,
{
    assert(0xC0u8 | (((sc >> 6) & 0x1F) as u8) >= 0x80) by (bit_vector);
    assert(0xE0u8 | (((sc >> 12) & 0x0F) as u8) >= 0x80) by (bit_vector);
    assert(0xF0u8 | (((sc >> 18) & 0x7) as u8) >= 0x80) by (bit_vector);
    assert(0x80u8 | ((sc & 0x3F) as u8) >= 0x80) by (bit_vector);
    assert(0x80u8 | (((sc >> 6) & 0x3F) as u8) >= 0x80) by (bit_vector);
    assert(0x80u8 | (((sc >> 12) & 0x3F) as u8) >= 0x80) by (bit_vector);
}

/// The decimal digits of a number are all below 128.
proof fn lemma_dec_low(n: nat)
    ensures
        forall|i: int| 0 <= i < spec_dec(n).len() ==> spec_dec(n)[i] < 0x80,
    decreases n,
{
    if n < 10 {
        assert(spec_dec(n) =~= seq![(48 + n) as u8]);
    } else {
        lemma_dec_low(n / 10);
        assert(spec_dec(n) == spec_dec(n / 10) + seq![(48 + n % 10) as u8]);
        assert forall|i: int| 0 <= i < spec_dec(n).len() implies spec_dec(n)[i] < 0x80 by {
            if i < spec_dec(n / 10).len() {
                assert(spec_dec(n)[i] == spec_dec(n / 10)[i]);
            } else {
                assert(spec_dec(n)[i] == (48 + n % 10) as u8);
            }
        }
    }
}

/// A decimal rendering is valid UTF-8.
pub proof fn lemma_dec_valid(n: nat)
    ensures
        vstd::utf8::valid_utf8(spec_dec(n)),
{
    lemma_dec_low(n);
    lemma_ascii_bytes_valid(spec_dec(n));
}

/// The pattern occurs in the text starting at position `i`.
pub open spec fn is_match_at(s: Seq<char>, pat: Seq<char>, i: int) -> bool {
    0 <= i && i + pat.len() <= s.len() && s.subrange(i, i + pat.len()) == pat
}

/// The pattern occurs somewhere in the text.
pub open spec fn contains_seq(s: Seq<char>, pat: Seq<char>) -> bool {
    exists|i: int| is_match_at(s, pat, i)
}

/// Substring search: whether the pattern occurs anywhere in the text.
pub fn str_contains(s: &str, pat: &str) -> (r: bool)
    ensures
        r == contains_seq(s@, pat@),
{
    let s_len = s.unicode_len();
    let pat_len = pat.unicode_len();
    if pat_len > s_len {
        proof {
            assert(forall|i: int| !is_match_at(s@, pat@, i));
        }
        return false;
    }
    if pat_len == 0 {
        proof {
            assert(s@.subrange(0, 0) =~= pat@);
            assert(is_match_at(s@, pat@, 0));
        }
        return true;
    }
    let mut i: usize = 0;
    while i <= s_len - pat_len
        invariant
            pat_len >= 1,
            pat_len == pat@.len(),
            s_len == s@.len(),
            pat_len <= s_len,
            i <= s_len - pat_len + 1,
            forall|j: int| 0 <= j < i ==> !is_match_at(s@, pat@, j),
        decreases s_len - pat_len - i + 1,
    {
        let mut k: usize = 0;
        let mut mismatch = false;
        while k < pat_len && !mismatch
            invariant
                pat_len == pat@.len(),
                s_len == s@.len(),
                pat_len <= s_len,
                i <= s_len - pat_len,
                k <= pat_len,
                !mismatch ==> forall|m: int| 0 <= m < k ==> s@[i + m] == pat@[m],
                mismatch ==> !is_match_at(s@, pat@, i as int),
            decreases pat_len - k + (if mismatch { 0int } else { 1int }),
        {
            let cs = s.get_char(i + k);
            let cp = pat.get_char(k);
            if cs == cp {
                k = k + 1;
            } else {
                proof {
                    assert(s@.subrange(i as int, i + pat@.len())[k as int] == s@[i + k]);
                }
                mismatch = true;
            }
        }
        if !mismatch {
            proof {
                assert(s@.subrange(i as int, i + pat@.len()) =~= pat@);
                assert(is_match_at(s@, pat@, i as int));
            }
            return true;
        }
        i = i + 1;
    }
    proof {
        assert(forall|j: int| #[trigger] is_match_at(s@, pat@, j) ==> 0 <= j < i);
        assert(forall|j: int| !is_match_at(s@, pat@, j));
    }
    false
}

} // verus!
