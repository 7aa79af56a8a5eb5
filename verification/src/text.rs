//! Verified text comparisons: exact equality, equality up to ASCII
//! case, and the lexicographic order of UTF-8 bytes.

use vstd::prelude::*;
use vstd::string::StringSliceAdditionalSpecFns;

verus! {

/// Compares two string slices for equality of their character sequences.
pub fn str_eq(a: &str, b: &str) -> (r: bool)
    ensures
        r == (a@ == b@),
{
    let ab = a.as_bytes();
    let bb = b.as_bytes();
    proof {
        vstd::utf8::encode_utf8_decode_utf8(a@);
        vstd::utf8::encode_utf8_decode_utf8(b@);
    }
    if ab.len() != bb.len() {
        assert(a@ != b@) by {
            if a@ == b@ {
                assert(ab@ =~= bb@);
            }
        }
        return false;
    }
    let n = ab.len();
    let mut i: usize = 0;
    while i < n
        invariant
            n == ab.len(),
            ab@.len() == bb@.len(),
            i <= n,
            forall|j: int| 0 <= j < i ==> ab@[j] == bb@[j],
            ab@ == vstd::utf8::encode_utf8(a@),
            bb@ == vstd::utf8::encode_utf8(b@),
            vstd::utf8::decode_utf8(vstd::utf8::encode_utf8(a@)) == a@,
            vstd::utf8::decode_utf8(vstd::utf8::encode_utf8(b@)) == b@,
        decreases n - i,
    {
        if ab[i] != bb[i] {
            assert(a@ != b@) by {
                if a@ == b@ {
                    assert(ab@ =~= bb@);
                }
            }
            return false;
        }
        i = i + 1;
    }
    assert(ab@ =~= bb@);
    assert(a@ == b@) by {
        assert(vstd::utf8::decode_utf8(ab@) == a@);
        assert(vstd::utf8::decode_utf8(bb@) == b@);
    }
    true
}


/// ASCII lower-casing of one character: `A` through `Z` map to their
/// lower-case forms, every other character stays as it is.
pub open spec fn lower_char(c: char) -> char {
    if 'A' <= c && c <= 'Z' {
        (((c as u8) + 32) as char)
    } else {
        c
    }
}

/// ASCII lower-casing of a character sequence.
pub open spec fn ascii_lower(s: Seq<char>) -> Seq<char> {
    s.map_values(|c: char| lower_char(c))
}

/// ASCII lower-casing of one byte.
pub open spec fn lower_byte(b: u8) -> u8 {
    if 65 <= b <= 90 {
        (b + 32) as u8
    } else {
        b
    }
}

fn lower_byte_exec(b: u8) -> (r: u8)
    ensures
        r == lower_byte(b),
{
    if 65 <= b && b <= 90 {
        b + 32
    } else {
        b
    }
}

/// Compares two string slices for equality up to ASCII case: upper-case
/// ASCII letters count as their lower-case forms, all other characters
/// count as themselves.
pub fn str_eq_ignore_ascii_case(s: &str, lit: &str) -> (r: bool)
    requires
        vstd::string::is_ascii(lit),
    ensures
        r == (ascii_lower(s@) == ascii_lower(lit@)),
{
    broadcast use vstd::string::is_ascii_spec_bytes;

    if !s.is_ascii() {
        assert(ascii_lower(s@) != ascii_lower(lit@)) by {
            if ascii_lower(s@) == ascii_lower(lit@) {
                let i = choose|i: int|
                    0 <= i < s@.len() && !('\0' <= #[trigger] s@[i] <= '\u{7f}');
                assert(ascii_lower(s@).len() == s@.len());
                assert(ascii_lower(lit@).len() == lit@.len());
                assert(0 <= i < lit@.len());
                assert(ascii_lower(s@)[i] == lower_char(s@[i]));
                assert(lower_char(s@[i]) == s@[i]);
                assert(ascii_lower(lit@)[i] == lower_char(lit@[i]));
                assert('\0' <= lit@[i] <= '\u{7f}');
            }
        }
        return false;
    }
    let sb = s.as_bytes();
    let lb = lit.as_bytes();
    proof {
        assert(sb@ =~= Seq::new(s@.len(), |i: int| s@[i] as u8));
        assert(lb@ =~= Seq::new(lit@.len(), |i: int| lit@[i] as u8));
    }
    if sb.len() != lb.len() {
        proof {
            assert(ascii_lower(s@).len() == s@.len());
            assert(ascii_lower(lit@).len() == lit@.len());
        }
        return false;
    }
    let n = sb.len();
    let mut i: usize = 0;
    while i < n
        invariant
            n == sb@.len(),
            sb@.len() == lb@.len(),
            i <= n,
            sb@ == Seq::new(s@.len(), |j: int| s@[j] as u8),
            lb@ == Seq::new(lit@.len(), |j: int| lit@[j] as u8),
            vstd::string::is_ascii(s),
            vstd::string::is_ascii(lit),
            forall|j: int| 0 <= j < i ==> lower_char(s@[j]) == lower_char(lit@[j]),
        decreases n - i,
    {
        let a = lower_byte_exec(sb[i]);
        let b = lower_byte_exec(lb[i]);
        if a != b {
            assert(ascii_lower(s@) != ascii_lower(lit@)) by {
                let gi = i as int;
                lemma_lower_char_byte(s@[gi]);
                lemma_lower_char_byte(lit@[gi]);
                assert(ascii_lower(s@)[gi] == lower_char(s@[gi]));
                assert(ascii_lower(lit@)[gi] == lower_char(lit@[gi]));
            }
            return false;
        }
        proof {
            let gi = i as int;
            lemma_lower_char_byte(s@[gi]);
            lemma_lower_char_byte(lit@[gi]);
        }
        i = i + 1;
    }
    proof {
        assert forall|j: int| 0 <= j < s@.len() implies ascii_lower(s@)[j] == ascii_lower(
            lit@,
        )[j] by {
            assert(lower_char(s@[j]) == lower_char(lit@[j]));
        }
        assert(ascii_lower(s@) =~= ascii_lower(lit@));
    }
    true
}

/// For an ASCII character, lower-casing the character and lower-casing
/// its byte agree, and two ASCII characters with equal lowered bytes are
/// equal up to case.
proof fn lemma_lower_char_byte(c: char)
    requires
        '\0' <= c <= '\u{7f}',
    ensures
        lower_char(c) as u8 == lower_byte(c as u8),
        '\0' <= lower_char(c) <= '\u{7f}',
        (lower_char(c) as u8) as char == lower_char(c),
{
    vstd::utf8::char_is_scalar(c);
    if 'A' <= c && c <= 'Z' {
        let u: u32 = c as u32;
        vstd::utf8::char_u32_cast(c, u);
        assert(lower_char(c) == (((c as u8) + 32) as char));
    } else {
        let u: u32 = c as u32;
        vstd::utf8::char_u32_cast(c, u);
    }
}

/// Lexicographic order on byte sequences: the empty run comes first, and
/// otherwise the first differing byte decides.
pub open spec fn lex_le_bytes(a: Seq<u8>, b: Seq<u8>) -> bool
    decreases a,
{
    if a.len() == 0 {
        true
    } else if b.len() == 0 {
        false
    } else if a[0] != b[0] {
        a[0] < b[0]
    } else {
        lex_le_bytes(a.drop_first(), b.drop_first())
    }
}

/// The order `lex_le_bytes` relates every pair of byte runs.
pub proof fn lemma_lex_total(a: Seq<u8>, b: Seq<u8>)
    ensures
        lex_le_bytes(a, b) || lex_le_bytes(b, a),
    decreases a,
{
    if a.len() > 0 && b.len() > 0 && a[0] == b[0] {
        lemma_lex_total(a.drop_first(), b.drop_first());
    }
}

/// The order `lex_le_bytes` is transitive.
pub proof fn lemma_lex_trans(a: Seq<u8>, b: Seq<u8>, c: Seq<u8>)
    requires
        lex_le_bytes(a, b),
        lex_le_bytes(b, c),
    ensures
        lex_le_bytes(a, c),
    decreases a,
{
    if a.len() > 0 && b.len() > 0 && c.len() > 0 && a[0] == b[0] && b[0] == c[0] {
        lemma_lex_trans(a.drop_first(), b.drop_first(), c.drop_first());
    }
}

/// Dropping an equal prefix of both runs does not change their order.
proof fn lemma_lex_skip(a: Seq<u8>, b: Seq<u8>, i: int)
    requires
        0 <= i <= a.len(),
        i <= b.len(),
        forall|j: int| 0 <= j < i ==> a[j] == b[j],
    ensures
        lex_le_bytes(a, b) == lex_le_bytes(a.skip(i), b.skip(i)),
    decreases i,
{
    if i == 0 {
        assert(a.skip(0) =~= a);
        assert(b.skip(0) =~= b);
    } else {
        assert(a.len() > 0 && b.len() > 0 && a[0] == b[0]);
        lemma_lex_skip(a.drop_first(), b.drop_first(), i - 1);
        assert(a.drop_first().skip(i - 1) =~= a.skip(i));
        assert(b.drop_first().skip(i - 1) =~= b.skip(i));
    }
}

/// Compares two string slices in the lexicographic order of their UTF-8
/// bytes, the order in which file paths are listed.
pub fn str_lex_le(a: &str, b: &str) -> (r: bool)
    ensures
        r == lex_le_bytes(a.spec_bytes(), b.spec_bytes()),
{
    let ab = a.as_bytes();
    let bb = b.as_bytes();
    let an = ab.len();
    let bn = bb.len();
    let mut i: usize = 0;
    loop
        invariant
            an == ab@.len(),
            bn == bb@.len(),
            ab@ == a.spec_bytes(),
            bb@ == b.spec_bytes(),
            i <= an,
            i <= bn,
            forall|j: int| 0 <= j < i ==> ab@[j] == bb@[j],
        decreases an - i,
    {
        proof {
            lemma_lex_skip(ab@, bb@, i as int);
        }
        if i == an {
            assert(ab@.skip(i as int).len() == 0);
            return true;
        }
        if i == bn {
            assert(bb@.skip(i as int).len() == 0);
            assert(ab@.skip(i as int).len() > 0);
            return false;
        }
        let x = ab[i];
        let y = bb[i];
        if x != y {
            assert(ab@.skip(i as int)[0] == x);
            assert(bb@.skip(i as int)[0] == y);
            return x < y;
        }
        i = i + 1;
    }
}

} // verus!
