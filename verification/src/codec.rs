//! Little-endian conversion between host integers and the byte images that
//! device buffers hold.
//!
//! Storage and uniform buffers carry raw bytes; every numeric example uploads
//! 32-bit signed integers and reads 32-bit signed integers back. These
//! functions are the byte layer of that round trip, specified exactly.
use vstd::prelude::*;

verus! {

/// The four little-endian bytes of one 32-bit signed integer.
pub open spec fn le_bytes_of_i32(v: i32) -> Seq<u8> {
    seq![
        (v as u32 % 0x100) as u8,
        (v as u32 / 0x100 % 0x100) as u8,
        (v as u32 / 0x10000 % 0x100) as u8,
        (v as u32 / 0x1000000 % 0x100) as u8,
    ]
}

/// The 32-bit signed integer encoded by four little-endian bytes.
pub open spec fn i32_of_le_bytes(b0: u8, b1: u8, b2: u8, b3: u8) -> i32 {
    (b0 + b1 * 0x100 + b2 * 0x10000 + b3 * 0x1000000) as u32 as i32
}

/// The byte image of a whole integer array, element after element.
pub open spec fn bytes_of_i32s(v: Seq<i32>) -> Seq<u8> {
    Seq::new(4 * v.len(), |k: int| le_bytes_of_i32(v[k / 4])[k % 4])
}

/// The integer array read from a byte image whose length is a multiple of 4.
pub open spec fn i32s_of_bytes(b: Seq<u8>) -> Seq<i32>
    recommends
        b.len() % 4 == 0,
{
    Seq::new(
        b.len() / 4,
        |i: int| i32_of_le_bytes(b[4 * i], b[4 * i + 1], b[4 * i + 2], b[4 * i + 3]),
    )
}

/// Encodes an integer array into the bytes a storage buffer is filled with.
pub fn encode_i32s(v: &Vec<i32>) -> (b: Vec<u8>)
    requires
        4 * v@.len() <= usize::MAX,
    ensures
        b@ == bytes_of_i32s(v@),
{
    let mut b: Vec<u8> = Vec::new();
    let mut i: usize = 0;
    while i < v.len()
        invariant
            i <= v@.len(),
            4 * v@.len() <= usize::MAX,
            b@ =~= bytes_of_i32s(v@.subrange(0, i as int)),
        decreases v@.len() - i,
    {
        let u = #[verifier::truncate] (v[i] as u32);
        b.push((u % 0x100) as u8);
        b.push((u / 0x100 % 0x100) as u8);
        b.push((u / 0x10000 % 0x100) as u8);
        b.push((u / 0x1000000 % 0x100) as u8);
        i = i + 1;
        assert(b@ =~= bytes_of_i32s(v@.subrange(0, i as int)));
    }
    assert(v@.subrange(0, v@.len() as int) =~= v@);
    b
}

/// Decodes the bytes read back from a staging buffer into host integers.
pub fn decode_i32s(b: &Vec<u8>) -> (v: Vec<i32>)
    requires
        b@.len() % 4 == 0,
    ensures
        v@ == i32s_of_bytes(b@),
{
    let n = b.len() / 4;
    assert(4 * (b@.len() / 4) == b@.len()) by (nonlinear_arith)
        requires
            b@.len() % 4 == 0,
    ;
    let mut v: Vec<i32> = Vec::new();
    let mut i: usize = 0;
    while i < n
        invariant
            i <= n,
            n == b@.len() / 4,
            4 * n == b@.len(),
            4 * n <= usize::MAX,
            b@.len() % 4 == 0,
            v@ =~= i32s_of_bytes(b@).subrange(0, i as int),
        decreases n - i,
    {
        let x: u32 = b[4 * i] as u32 + b[4 * i + 1] as u32 * 0x100 + b[4 * i + 2] as u32 * 0x10000
            + b[4 * i + 3] as u32 * 0x1000000;
        v.push(#[verifier::truncate] (x as i32));
        i = i + 1;
        assert(v@ =~= i32s_of_bytes(b@).subrange(0, i as int));
    }
    assert(i32s_of_bytes(b@).subrange(0, n as int) =~= i32s_of_bytes(b@));
    v
}

/// The four little-endian bytes of one 32-bit unsigned integer.
pub open spec fn le_bytes_of_u32(v: u32) -> Seq<u8> {
    seq![
        (v % 0x100) as u8,
        (v / 0x100 % 0x100) as u8,
        (v / 0x10000 % 0x100) as u8,
        (v / 0x1000000 % 0x100) as u8,
    ]
}

/// Appends one unsigned integer's little-endian bytes.
pub fn push_u32_le(b: &mut Vec<u8>, v: u32)
    ensures
        final(b)@ == old(b)@ + le_bytes_of_u32(v),
{
    b.push((v % 0x100) as u8);
    b.push((v / 0x100 % 0x100) as u8);
    b.push((v / 0x10000 % 0x100) as u8);
    b.push((v / 0x1000000 % 0x100) as u8);
    assert(b@ =~= old(b)@ + le_bytes_of_u32(v));
}

/// One integer survives the trip through its little-endian bytes.
pub proof fn lemma_i32_byte_round_trip(x: i32)
    ensures
        i32_of_le_bytes(
            le_bytes_of_i32(x)[0],
            le_bytes_of_i32(x)[1],
            le_bytes_of_i32(x)[2],
            le_bytes_of_i32(x)[3],
        ) == x,
{
    let u = x as u32;
    assert(u % 0x100 + u / 0x100 % 0x100 * 0x100 + u / 0x10000 % 0x100 * 0x10000
        + u / 0x1000000 % 0x100 * 0x1000000 == u) by (bit_vector);
    assert(x as u32 as i32 == x) by (bit_vector);
}

/// An integer array survives the trip into buffer bytes and back: what a
/// dispatch uploads is exactly what a byte-identical read-back decodes to.
pub proof fn lemma_codec_round_trip(v: Seq<i32>)
    ensures
        i32s_of_bytes(bytes_of_i32s(v)) == v,
{
    let b = bytes_of_i32s(v);
    assert forall|i: int| 0 <= i < v.len() implies i32s_of_bytes(b)[i] == v[i] by {
        assert((4 * i) / 4 == i && (4 * i) % 4 == 0) by (nonlinear_arith);
        assert((4 * i + 1) / 4 == i && (4 * i + 1) % 4 == 1) by (nonlinear_arith);
        assert((4 * i + 2) / 4 == i && (4 * i + 2) % 4 == 2) by (nonlinear_arith);
        assert((4 * i + 3) / 4 == i && (4 * i + 3) % 4 == 3) by (nonlinear_arith);
        assert(b[4 * i] == le_bytes_of_i32(v[i])[0]);
        assert(b[4 * i + 1] == le_bytes_of_i32(v[i])[1]);
        assert(b[4 * i + 2] == le_bytes_of_i32(v[i])[2]);
        assert(b[4 * i + 3] == le_bytes_of_i32(v[i])[3]);
        lemma_i32_byte_round_trip(v[i]);
    }
    assert(i32s_of_bytes(b) =~= v);
}

} // verus!
