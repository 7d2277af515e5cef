//! The proof-bundle container: three length-prefixed segments (proof,
//! public inputs, output record), each prefixed by its length as a
//! little-endian `u32`.
use vstd::prelude::*;
use vstd::arithmetic::div_mod::lemma_fundamental_div_mod;

verus! {

/// Largest length a segment may have: its prefix is a `u32`.
pub const MAX_SEGMENT_LEN: usize = 0xffff_ffff;

/// The four little-endian bytes of `n`.
pub open spec fn le_bytes(n: nat) -> Seq<u8> {
    seq![
        (n % 256) as u8,
        (n / 256 % 256) as u8,
        (n / 256 / 256 % 256) as u8,
        (n / 256 / 256 / 256 % 256) as u8,
    ]
}

/// The number that four little-endian bytes, starting at `at`, stand for.
pub open spec fn le_value(b: Seq<u8>, at: int) -> nat {
    (b[at] + 256 * (b[at + 1] + 256 * (b[at + 2] + 256 * b[at + 3]))) as nat
}

/// One segment as it is written: its length, then its bytes.
pub open spec fn framed(seg: Seq<u8>) -> Seq<u8> {
    le_bytes(seg.len()) + seg
}

/// The bytes of a bundle that holds `proof`, `inputs` and `record`.
pub open spec fn encoding(proof: Seq<u8>, inputs: Seq<u8>, record: Seq<u8>) -> Seq<u8> {
    framed(proof) + framed(inputs) + framed(record)
}

/// Whether every segment's length fits its `u32` prefix.
pub open spec fn encodable(proof: Seq<u8>, inputs: Seq<u8>, record: Seq<u8>) -> bool {
    &&& proof.len() <= MAX_SEGMENT_LEN
    &&& inputs.len() <= MAX_SEGMENT_LEN
    &&& record.len() <= MAX_SEGMENT_LEN
}

proof fn lemma_le_round_trip(n: nat)
    requires
        n <= MAX_SEGMENT_LEN,
    ensures
        le_value(le_bytes(n), 0) == n,
{
    let n1 = n / 256;
    let n2 = n1 / 256;
    let n3 = n2 / 256;
    lemma_fundamental_div_mod(n as int, 256);
    lemma_fundamental_div_mod(n1 as int, 256);
    lemma_fundamental_div_mod(n2 as int, 256);
    lemma_fundamental_div_mod(n3 as int, 256);
    assert(n3 < 256);
    let b = le_bytes(n);
    assert(b[0] == n % 256);
    assert(b[1] == n1 % 256);
    assert(b[2] == n2 % 256);
    assert(b[3] == n3 % 256);
}

fn push_le_u32(out: &mut Vec<u8>, n: u32)
    ensures
        final(out)@ == old(out)@ + le_bytes(n as nat),
{
    out.push((n % 256) as u8);
    out.push((n / 256 % 256) as u8);
    out.push((n / 256 / 256 % 256) as u8);
    out.push((n / 256 / 256 / 256 % 256) as u8);
    assert(final(out)@ =~= old(out)@ + le_bytes(n as nat));
}

fn push_segment(out: &mut Vec<u8>, seg: &[u8])
    requires
        seg@.len() <= MAX_SEGMENT_LEN,
    ensures
        final(out)@ == old(out)@ + framed(seg@),
{
    push_le_u32(out, seg.len() as u32);
    let ghost start = out@;
    let mut i: usize = 0;
    while i < seg.len()
        invariant
            i <= seg@.len(),
            out@ == start + seg@.subrange(0, i as int),
        decreases seg@.len() - i,
    {
        out.push(seg[i]);
        i = i + 1;
        assert(out@ =~= start + seg@.subrange(0, i as int));
    }
    assert(seg@.subrange(0, i as int) =~= seg@);
    assert(out@ =~= old(out)@ + framed(seg@));
}

/// Packs a proof, its public inputs and a serialized output record into
/// one bundle.
pub fn encode(proof: &[u8], public_inputs: &[u8], output_record: &[u8]) -> (r: Vec<u8>)
    requires
        encodable(proof@, public_inputs@, output_record@),
    ensures
        r@ == encoding(proof@, public_inputs@, output_record@),
{
    let mut out: Vec<u8> = Vec::new();
    push_segment(&mut out, proof);
    push_segment(&mut out, public_inputs);
    push_segment(&mut out, output_record);
    assert(out@ =~= encoding(proof@, public_inputs@, output_record@));
    out
}

/// Why a byte sequence is not a bundle.
#[derive(Debug, Clone, Copy, PartialEq, Eq, Structural)]
pub enum BundleError {
    /// A length field, or the segment it announces, runs past the end.
    Truncated,
    /// Bytes remain after the output-record segment, or the record inside
    /// does not decode.
    Malformed,
}

/// The end of the segment whose length field starts at `at`.
pub open spec fn segment_end(b: Seq<u8>, at: int) -> int {
    at + 4 + le_value(b, at)
}

/// Whether a whole segment, length field included, starts at `at`.
pub open spec fn has_segment(b: Seq<u8>, at: int) -> bool {
    at + 4 <= b.len() && segment_end(b, at) <= b.len()
}

/// The bytes of the segment whose length field starts at `at`.
pub open spec fn segment(b: Seq<u8>, at: int) -> Seq<u8> {
    b.subrange(at + 4, segment_end(b, at))
}

/// What reading `b` as a bundle gives: the proof, public-input and
/// output-record segments, or the reason it fails.
pub open spec fn decoded(b: Seq<u8>) -> Result<(Seq<u8>, Seq<u8>, Seq<u8>), BundleError> {
    let e1 = segment_end(b, 0);
    let e2 = segment_end(b, e1);
    if !has_segment(b, 0) || !has_segment(b, e1) || !has_segment(b, e2) {
        Err(BundleError::Truncated)
    } else if segment_end(b, e2) < b.len() {
        Err(BundleError::Malformed)
    } else {
        Ok((segment(b, 0), segment(b, e1), segment(b, e2)))
    }
}

/// A decoded bundle: views into the buffer it was read from.
pub struct Bundle<'a> {
    pub proof: &'a [u8],
    pub public_inputs: &'a [u8],
    pub output_record: &'a [u8],
}

impl<'a> Bundle<'a> {
    pub open spec fn parts(&self) -> (Seq<u8>, Seq<u8>, Seq<u8>) {
        (self.proof@, self.public_inputs@, self.output_record@)
    }
}

fn read_le_u32(b: &[u8], at: usize) -> (n: u32)
    requires
        at + 4 <= b@.len(),
    ensures
        n as nat == le_value(b@, at as int),
{
    let b0 = b[at] as u32;
    let b1 = b[at + 1] as u32;
    let b2 = b[at + 2] as u32;
    let b3 = b[at + 3] as u32;
    assert(b0 + 256 * (b1 + 256 * (b2 + 256 * b3)) <= 0xffff_ffff) by (nonlinear_arith)
        requires
            b0 <= 255,
            b1 <= 255,
            b2 <= 255,
            b3 <= 255,
    ;
    b0 + 256 * (b1 + 256 * (b2 + 256 * b3))
}

/// Reads the segment whose length field starts at `at`; `None` where it
/// runs past the end.
fn take_segment<'a>(b: &'a [u8], at: usize) -> (r: Option<(&'a [u8], usize)>)
    requires
        at <= b@.len(),
    ensures
        match r {
            Some((seg, end)) => has_segment(b@, at as int) && seg@ == segment(b@, at as int)
                && end == segment_end(b@, at as int),
            None => !has_segment(b@, at as int),
        },
{
    if b.len() - at < 4 {
        return None;
    }
    let n = read_le_u32(b, at) as usize;
    if b.len() - at - 4 < n {
        return None;
    }
    let end = at + 4 + n;
    Some((vstd::slice::slice_subrange(b, at + 4, end), end))
}

/// Splits a bundle into its proof, public inputs and output record.
/// Structural only: nothing here judges whether the proof is valid.
pub fn decode<'a>(bytes: &'a [u8]) -> (r: Result<Bundle<'a>, BundleError>)
    ensures
        match r {
            Ok(bundle) => decoded(bytes@) == Ok::<_, BundleError>(bundle.parts()),
            Err(e) => decoded(bytes@) == Err::<(Seq<u8>, Seq<u8>, Seq<u8>), _>(e),
        },
{
    let (proof, e1) = match take_segment(bytes, 0) {
        Some(x) => x,
        None => return Err(BundleError::Truncated),
    };
    let (public_inputs, e2) = match take_segment(bytes, e1) {
        Some(x) => x,
        None => return Err(BundleError::Truncated),
    };
    let (output_record, e3) = match take_segment(bytes, e2) {
        Some(x) => x,
        None => return Err(BundleError::Truncated),
    };
    if e3 < bytes.len() {
        return Err(BundleError::Malformed);
    }
    Ok(Bundle { proof, public_inputs, output_record })
}

/// The length field of the segment that `framed(seg)` starts at `at` in
/// `b` reads back as the segment's length, as long as the field lies in `b`.
proof fn lemma_length_field(b: Seq<u8>, at: int, seg: Seq<u8>)
    requires
        seg.len() <= MAX_SEGMENT_LEN,
        0 <= at,
        at + 4 <= b.len(),
        forall|j: int| 0 <= j < 4 ==> b[at + j] == #[trigger] framed(seg)[j],
    ensures
        le_value(b, at) == seg.len(),
{
    lemma_le_round_trip(seg.len());
    assert(b[at] == framed(seg)[0]);
    assert(b[at + 1] == framed(seg)[1]);
    assert(b[at + 2] == framed(seg)[2]);
    assert(b[at + 3] == framed(seg)[3]);
}

/// Decoding an encoded bundle gives back exactly the proof, public inputs
/// and output record that were encoded.
pub proof fn lemma_decode_encode(proof: Seq<u8>, inputs: Seq<u8>, record: Seq<u8>)
    requires
        encodable(proof, inputs, record),
    ensures
        decoded(encoding(proof, inputs, record)) == Ok::<_, BundleError>((proof, inputs, record)),
{
    let b = encoding(proof, inputs, record);
    let e1: int = 4 + proof.len() as int;
    let e2: int = e1 + 4 + inputs.len();
    assert(b =~= framed(proof) + (framed(inputs) + framed(record)));
    lemma_length_field(b, 0, proof);
    lemma_length_field(b, e1, inputs);
    lemma_length_field(b, e2, record);
    assert(segment(b, 0) =~= proof);
    assert(segment(b, e1) =~= inputs);
    assert(segment(b, e2) =~= record);
}

/// Every strict prefix of an encoded bundle is rejected as truncated.
pub proof fn lemma_prefix_truncated(proof: Seq<u8>, inputs: Seq<u8>, record: Seq<u8>, k: int)
    requires
        encodable(proof, inputs, record),
        0 <= k < encoding(proof, inputs, record).len(),
    ensures
        decoded(encoding(proof, inputs, record).take(k)) == Err::<(Seq<u8>, Seq<u8>, Seq<u8>), _>(
            BundleError::Truncated,
        ),
{
    let full = encoding(proof, inputs, record);
    let b = full.take(k);
    let e1: int = 4 + proof.len() as int;
    let e2: int = e1 + 4 + inputs.len();
    assert(full =~= framed(proof) + (framed(inputs) + framed(record)));
    if k >= 4 {
        lemma_length_field(b, 0, proof);
        if k >= e1 + 4 {
            lemma_length_field(b, e1, inputs);
            if k >= e2 + 4 {
                lemma_length_field(b, e2, record);
            }
        }
    }
}

} // verus!
