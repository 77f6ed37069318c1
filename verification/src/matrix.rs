//! The fixed-capacity matrix uploaded as a uniform block.
//!
//! The matrix programs declare a uniform structure of 256 cells, the used
//! width and height, and two trailing padding words that meet the device's
//! uniform-layout alignment rules. This type mirrors that layout with the
//! capacity and padding explicit, so its byte image can be stated exactly.
use vstd::prelude::*;

use crate::codec;

verus! {

/// The number of cells a matrix block always carries, used or not.
pub const MATRIX_CAPACITY: usize = 256;

/// A row-major matrix in the fixed uniform-block layout: `x` by `y` used
/// cells at the front of a 256-cell block, the unused tail zero.
pub struct Matrix {
    pub data: Vec<i32>,
    pub x: u32,
    pub y: u32,
}

impl Matrix {
    /// The full capacity is always allocated.
    pub open spec fn wf(self) -> bool {
        self.data@.len() == MATRIX_CAPACITY
    }

    /// Builds a block holding the given cells in order, the rest zero.
    pub fn new(data: &Vec<i32>, x: u32, y: u32) -> (m: Matrix)
        requires
            data@.len() <= MATRIX_CAPACITY,
        ensures
            m.wf(),
            m.x == x,
            m.y == y,
            m.data@.subrange(0, data@.len() as int) == data@,
            forall|k: int| data@.len() <= k < MATRIX_CAPACITY ==> m.data@[k] == 0i32,
    {
        let mut buf: Vec<i32> = Vec::new();
        let mut i: usize = 0;
        while i < data.len()
            invariant
                i <= data@.len(),
                buf@ =~= data@.subrange(0, i as int),
            decreases data@.len() - i,
        {
            buf.push(data[i]);
            i = i + 1;
            assert(buf@ =~= data@.subrange(0, i as int));
        }
        assert(data@.subrange(0, data@.len() as int) =~= data@);
        while buf.len() < MATRIX_CAPACITY
            invariant
                data@.len() <= buf@.len() <= MATRIX_CAPACITY,
                buf@.subrange(0, data@.len() as int) =~= data@,
                forall|k: int| data@.len() <= k < buf@.len() ==> buf@[k] == 0i32,
            decreases MATRIX_CAPACITY - buf@.len(),
        {
            buf.push(0);
            assert(buf@.subrange(0, data@.len() as int) =~= data@);
        }
        Matrix { data: buf, x, y }
    }
}

impl Default for Matrix {
    /// An empty block: all cells zero, no used width or height.
    fn default() -> (m: Matrix)
        ensures
            m.wf(),
            m.x == 0,
            m.y == 0,
            forall|k: int| 0 <= k < MATRIX_CAPACITY ==> m.data@[k] == 0i32,
    {
        let empty: Vec<i32> = Vec::new();
        Matrix::new(&empty, 0, 0)
    }
}

/// The uniform-block byte image: the cells, then the width, the height, and
/// eight bytes of padding, all little-endian.
pub open spec fn matrix_bytes(m: Matrix) -> Seq<u8> {
    codec::bytes_of_i32s(m.data@) + codec::le_bytes_of_u32(m.x) + codec::le_bytes_of_u32(m.y)
        + seq![0u8, 0u8, 0u8, 0u8, 0u8, 0u8, 0u8, 0u8]
}

/// Encodes a block into the bytes its uniform buffer is created with.
pub fn matrix_to_bytes(m: &Matrix) -> (b: Vec<u8>)
    requires
        m.wf(),
    ensures
        b@ == matrix_bytes(*m),
        b@.len() == 1040,
{
    let mut b = codec::encode_i32s(&m.data);
    codec::push_u32_le(&mut b, m.x);
    codec::push_u32_le(&mut b, m.y);
    let mut k: usize = 0;
    while k < 8
        invariant
            k <= 8,
            b@ =~= matrix_bytes(*m).subrange(0, 1032 + k as int),
            m.wf(),
        decreases 8 - k,
    {
        b.push(0);
        k = k + 1;
        assert(b@ =~= matrix_bytes(*m).subrange(0, 1032 + k as int));
    }
    assert(b@ =~= matrix_bytes(*m));
    b
}

} // verus!
