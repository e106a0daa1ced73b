//! Little-endian encoding of `u64` and `Option<u64>`, as borsh lays them out.
use vstd::prelude::*;

verus! {

/// The eight little-endian bytes of `v`.
pub open spec fn le_of_u64(v: u64) -> Seq<u8> {
    seq![
        v as u8,
        (v >> 8u64) as u8,
        (v >> 16u64) as u8,
        (v >> 24u64) as u8,
        (v >> 32u64) as u8,
        (v >> 40u64) as u8,
        (v >> 48u64) as u8,
        (v >> 56u64) as u8,
    ]
}

/// The `u64` whose little-endian bytes are the first eight of `s`.
pub open spec fn u64_of_le(s: Seq<u8>) -> u64
    recommends
        s.len() >= 8,
{
    (s[0] as u64) | ((s[1] as u64) << 8u64) | ((s[2] as u64) << 16u64) | ((s[3] as u64)
        << 24u64) | ((s[4] as u64) << 32u64) | ((s[5] as u64) << 40u64) | ((s[6] as u64)
        << 48u64) | ((s[7] as u64) << 56u64)
}

/// `Some(v)` where `s` is exactly the encoding of a `u64` `v`.
pub open spec fn u64_from_bytes(s: Seq<u8>) -> Option<u64> {
    if s.len() == 8 {
        Some(u64_of_le(s))
    } else {
        None
    }
}

/// The encoding of an optional `u64`: a presence flag, then the value if present.
pub open spec fn bytes_of_opt_u64(o: Option<u64>) -> Seq<u8> {
    match o {
        None => seq![0u8],
        Some(v) => seq![1u8] + le_of_u64(v),
    }
}

/// `Some(o)` where `s` is exactly the encoding of the optional `u64` `o`.
pub open spec fn opt_u64_from_bytes(s: Seq<u8>) -> Option<Option<u64>> {
    if s.len() == 1 && s[0] == 0 {
        Some(None)
    } else if s.len() == 9 && s[0] == 1 {
        Some(Some(u64_of_le(s.subrange(1, 9))))
    } else {
        None
    }
}

/// Reading back the bytes of `v` gives `v`.
pub proof fn lemma_u64_round_trip(v: u64)
    ensures
        le_of_u64(v).len() == 8,
        u64_of_le(le_of_u64(v)) == v,
        u64_from_bytes(le_of_u64(v)) == Some(v),
{
    let s = le_of_u64(v);
    assert(u64_of_le(s) == ((v as u8) as u64) | ((((v >> 8u64) as u8) as u64) << 8u64) | ((((v
        >> 16u64) as u8) as u64) << 16u64) | ((((v >> 24u64) as u8) as u64) << 24u64) | ((((v
        >> 32u64) as u8) as u64) << 32u64) | ((((v >> 40u64) as u8) as u64) << 40u64) | ((((v
        >> 48u64) as u8) as u64) << 48u64) | ((((v >> 56u64) as u8) as u64) << 56u64));
    assert(((v as u8) as u64) | ((((v >> 8u64) as u8) as u64) << 8u64) | ((((v >> 16u64) as u8)
        as u64) << 16u64) | ((((v >> 24u64) as u8) as u64) << 24u64) | ((((v >> 32u64) as u8)
        as u64) << 32u64) | ((((v >> 40u64) as u8) as u64) << 40u64) | ((((v >> 48u64) as u8)
        as u64) << 48u64) | ((((v >> 56u64) as u8) as u64) << 56u64) == v) by (bit_vector);
}

/// Reading back the bytes of an optional `u64` gives it back.
pub proof fn lemma_opt_u64_round_trip(o: Option<u64>)
    ensures
        opt_u64_from_bytes(bytes_of_opt_u64(o)) == Some(o),
{
    if let Some(v) = o {
        lemma_u64_round_trip(v);
        let s = bytes_of_opt_u64(o);
        assert(s.subrange(1, 9) =~= le_of_u64(v));
    }
}

/// Relies on borsh::from_slice for `u64`: it reads eight little-endian bytes and
/// fails unless the slice holds exactly those.
#[verifier::external_body]
pub(crate) fn decode_u64(s: &[u8]) -> (r: Option<u64>)
    ensures
        r == u64_from_bytes(s@),
{
    borsh::from_slice::<u64>(s).ok()
}

/// Relies on borsh::from_slice for `Option<u64>`: a flag byte 0 or 1, then the
/// value when the flag is 1; any other flag, a short input or trailing bytes fail.
#[verifier::external_body]
pub(crate) fn decode_opt_u64(s: &[u8]) -> (r: Option<Option<u64>>)
    ensures
        r == opt_u64_from_bytes(s@),
{
    borsh::from_slice::<Option<u64>>(s).ok()
}

/// Relies on borsh::to_vec for `u64`: the eight little-endian bytes. Writing into
/// a `Vec` does not fail.
#[verifier::external_body]
pub(crate) fn encode_u64(v: u64) -> (r: Vec<u8>)
    ensures
        r@ == le_of_u64(v),
{
    borsh::to_vec(&v).unwrap_or_default()
}

/// Relies on borsh::to_vec for `Option<u64>`: the flag byte, then the value's
/// eight little-endian bytes when present. Writing into a `Vec` does not fail.
#[verifier::external_body]
pub(crate) fn encode_opt_u64(o: Option<u64>) -> (r: Vec<u8>)
    ensures
        r@ == bytes_of_opt_u64(o),
{
    borsh::to_vec(&o).unwrap_or_default()
}

} // verus!
