//! Program identifiers: a hexadecimal string of at most 64 digits, read
//! as a 32-byte value aligned to the right (zero bytes in front).
use vstd::prelude::*;

verus! {

/// Number of bytes in an identifier.
pub const IDENTIFIER_LEN: usize = 32;

/// Why a string is not an identifier.
#[derive(Debug, Clone, Copy, PartialEq, Eq, Structural)]
pub enum IdentifierError {
    /// Odd length, more than 64 digits, or a character that is no hex digit.
    InvalidHex,
}

pub open spec fn is_hex_digit(c: char) -> bool {
    ('0' <= c && c <= '9') || ('a' <= c && c <= 'f') || ('A' <= c && c <= 'F')
}

/// The value of a hex digit.
pub open spec fn digit_value(c: char) -> nat {
    if '0' <= c && c <= '9' {
        (c as nat - '0' as nat) as nat
    } else if 'a' <= c && c <= 'f' {
        (c as nat - 'a' as nat + 10) as nat
    } else {
        (c as nat - 'A' as nat + 10) as nat
    }
}

/// Whether `s` spells an identifier: an even number of hex digits, at most 64.
pub open spec fn is_identifier_text(s: Seq<char>) -> bool {
    &&& s.len() % 2 == 0
    &&& s.len() <= 2 * IDENTIFIER_LEN
    &&& forall|i: int| 0 <= i < s.len() ==> is_hex_digit(#[trigger] s[i])
}

/// The byte that the digit pair starting at `2 * k` spells.
pub open spec fn pair_value(s: Seq<char>, k: int) -> u8 {
    (16 * digit_value(s[2 * k]) + digit_value(s[2 * k + 1])) as u8
}

/// The 32 bytes an identifier text stands for: its bytes, in order, at the
/// end, and zero bytes before them.
pub open spec fn identifier_of(s: Seq<char>) -> Seq<u8> {
    let pad = IDENTIFIER_LEN - s.len() / 2;
    Seq::new(IDENTIFIER_LEN as nat, |j: int| if j < pad { 0u8 } else { pair_value(s, j - pad) })
}

fn hex_digit(c: char) -> (r: Option<u8>)
    ensures
        match r {
            Some(v) => is_hex_digit(c) && v == digit_value(c),
            None => !is_hex_digit(c),
        },
{
    if '0' <= c && c <= '9' {
        Some(((c as u32) - ('0' as u32)) as u8)
    } else if 'a' <= c && c <= 'f' {
        Some(((c as u32) - ('a' as u32) + 10) as u8)
    } else if 'A' <= c && c <= 'F' {
        Some(((c as u32) - ('A' as u32) + 10) as u8)
    } else {
        None
    }
}

/// Reads a hexadecimal identifier into its right-aligned 32-byte form.
pub fn decode_identifier(hex: &str) -> (r: Result<[u8; 32], IdentifierError>)
    ensures
        match r {
            Ok(id) => is_identifier_text(hex@) && id@ == identifier_of(hex@),
            Err(e) => !is_identifier_text(hex@) && e == IdentifierError::InvalidHex,
        },
{
    let n = hex.unicode_len();
    if n % 2 != 0 || n > 2 * IDENTIFIER_LEN {
        return Err(IdentifierError::InvalidHex);
    }
    let pad = IDENTIFIER_LEN - n / 2;
    let mut id: [u8; 32] = [0u8; 32];
    let mut k: usize = 0;
    while k < n / 2
        invariant
            n == hex@.len(),
            n % 2 == 0,
            n <= 2 * IDENTIFIER_LEN,
            pad == IDENTIFIER_LEN - n / 2,
            k <= n / 2,
            id@.len() == IDENTIFIER_LEN,
            forall|i: int| 0 <= i < 2 * k ==> is_hex_digit(#[trigger] hex@[i]),
            forall|j: int| 0 <= j < IDENTIFIER_LEN ==> #[trigger] id@[j] == (
                if pad <= j < pad + k { pair_value(hex@, j - pad) } else { 0u8 }),
        decreases n / 2 - k,
    {
        let hi = match hex_digit(hex.get_char(2 * k)) {
            Some(v) => v,
            None => return Err(IdentifierError::InvalidHex),
        };
        let lo = match hex_digit(hex.get_char(2 * k + 1)) {
            Some(v) => v,
            None => return Err(IdentifierError::InvalidHex),
        };
        id[pad + k] = 16 * hi + lo;
        k = k + 1;
    }
    assert(id@ =~= identifier_of(hex@));
    Ok(id)
}

/// The number that the hex digits `s` spell, most significant first.
pub open spec fn hex_number(s: Seq<char>) -> nat
    decreases s.len(),
{
    if s.len() == 0 {
        0
    } else {
        hex_number(s.drop_last()) * 16 + digit_value(s.last())
    }
}

/// The number that the bytes `b` spell, most significant first.
pub open spec fn be_number(b: Seq<u8>) -> nat
    decreases b.len(),
{
    if b.len() == 0 {
        0
    } else {
        be_number(b.drop_last()) * 256 + b.last() as nat
    }
}

/// The bytes that the digit pairs of `s` spell, in order.
spec fn pair_bytes(s: Seq<char>) -> Seq<u8> {
    Seq::new(s.len() / 2, |k: int| pair_value(s, k))
}

proof fn lemma_be_zeros(z: Seq<u8>, x: Seq<u8>)
    requires
        forall|i: int| 0 <= i < z.len() ==> z[i] == 0,
    ensures
        be_number(z + x) == be_number(x),
    decreases z.len() + x.len(),
{
    if x.len() == 0 {
        assert(z + x =~= z);
        if z.len() > 0 {
            lemma_be_zeros(z.drop_last(), x);
            assert(z.drop_last() + x =~= z.drop_last());
        }
    } else {
        assert((z + x).drop_last() =~= z + x.drop_last());
        lemma_be_zeros(z, x.drop_last());
    }
}

proof fn lemma_pair_bytes(s: Seq<char>)
    requires
        s.len() % 2 == 0,
        forall|i: int| 0 <= i < s.len() ==> is_hex_digit(#[trigger] s[i]),
    ensures
        be_number(pair_bytes(s)) == hex_number(s),
    decreases s.len(),
{
    if s.len() > 0 {
        let t = s.subrange(0, s.len() - 2);
        assert(s.drop_last().drop_last() =~= t);
        assert(pair_bytes(s).drop_last() =~= pair_bytes(t));
        assert(forall|i: int| 0 <= i < t.len() ==> t[i] == s[i]);
        lemma_pair_bytes(t);
        let a = digit_value(s[s.len() - 2]);
        let b = digit_value(s[s.len() - 1]);
        assert(is_hex_digit(s[s.len() - 2]));
        assert(is_hex_digit(s[s.len() - 1]));
        assert(a < 16 && b < 16);
        assert(pair_bytes(s).last() == 16 * a + b);
        let h = hex_number(t);
        let d = s.drop_last();
        assert(d.last() == s[s.len() - 2]);
        assert(hex_number(d) == hex_number(d.drop_last()) * 16 + a);
        assert(hex_number(d) == h * 16 + a);
        assert(hex_number(s) == (h * 16 + a) * 16 + b);
        assert((h * 16 + a) * 16 + b == h * 256 + 16 * a + b) by (nonlinear_arith);
    } else {
        assert(pair_bytes(s) =~= Seq::<u8>::empty());
    }
}

/// An identifier holds the value its hex text spells: its 32 bytes, read
/// most significant first, make the number that the digits make.
pub proof fn lemma_identifier_value(s: Seq<char>)
    requires
        is_identifier_text(s),
    ensures
        be_number(identifier_of(s)) == hex_number(s),
{
    let pad = IDENTIFIER_LEN - s.len() / 2;
    let z = Seq::new(pad as nat, |j: int| 0u8);
    assert(identifier_of(s) =~= z + pair_bytes(s));
    lemma_be_zeros(z, pair_bytes(s));
    lemma_pair_bytes(s);
}

} // verus!
