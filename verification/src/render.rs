use vstd::prelude::*;

use byteorder::{ByteOrder, NativeEndian};

verus! {

/// The type of the indices in an element buffer.
#[derive(Clone, Copy, Debug, PartialEq, Eq, Structural)]
pub enum ElementType {
    UnsignedShort,
    UnsignedInt,
}

/// The vertex, among the four of a quad, that corner `k` (0 to 5) of its two
/// triangles uses: the triangles are 0, 1, 2 and 2, 1, 3.
pub open spec fn quad_corner(k: int) -> int {
    if k == 0 {
        0
    } else if k == 1 {
        1
    } else if k == 2 {
        2
    } else if k == 3 {
        2
    } else if k == 4 {
        1
    } else {
        3
    }
}

/// Index `j` of an element buffer of quads: the corner `j % 6` of quad `j / 6`,
/// whose vertices start at `4 * (j / 6)`.
pub open spec fn element_index(j: int) -> int {
    4 * (j / 6) + quad_corner(j % 6)
}

/// A buffer for `size` indices needs 32-bit indices once its quads use
/// `u16::MAX` vertex slots or more (counted three per vertex).
pub open spec fn needs_wide(size: int) -> bool {
    (size / 6) * 4 * 3 >= 65535
}

/// The bytes of `v`, least significant first.
pub open spec fn le_u16(v: u16) -> Seq<u8> {
    seq![(v % 256) as u8, (v / 256) as u8]
}

/// The bytes of `v`, most significant first.
pub open spec fn be_u16(v: u16) -> Seq<u8> {
    seq![(v / 256) as u8, (v % 256) as u8]
}

/// The bytes of `v`, least significant first.
pub open spec fn le_u32(v: u32) -> Seq<u8> {
    seq![(v % 256) as u8, ((v / 256) % 256) as u8, ((v / 65536) % 256) as u8, (v / 16777216) as u8]
}

/// The bytes of `v`, most significant first.
pub open spec fn be_u32(v: u32) -> Seq<u8> {
    seq![(v / 16777216) as u8, ((v / 65536) % 256) as u8, ((v / 256) % 256) as u8, (v % 256) as u8]
}

/// `data` holds the 16-bit values `vals` one after the other, each most
/// significant byte first when `big`, least significant byte first otherwise.
pub open spec fn holds_u16s(data: Seq<u8>, vals: Seq<u16>, big: bool) -> bool {
    &&& data.len() == 2 * vals.len()
    &&& forall|j: int|
        0 <= j < vals.len() ==> #[trigger] data.subrange(2 * j, 2 * j + 2) == (if big {
            be_u16(vals[j])
        } else {
            le_u16(vals[j])
        })
}

/// `data` holds the 32-bit values `vals` one after the other, each most
/// significant byte first when `big`, least significant byte first otherwise.
pub open spec fn holds_u32s(data: Seq<u8>, vals: Seq<u32>, big: bool) -> bool {
    &&& data.len() == 4 * vals.len()
    &&& forall|j: int|
        0 <= j < vals.len() ==> #[trigger] data.subrange(4 * j, 4 * j + 4) == (if big {
            be_u32(vals[j])
        } else {
            le_u32(vals[j])
        })
}

/// The indices of an element buffer for `size` indices: the whole quads'.
pub open spec fn element_indices_u16(size: int) -> Seq<u16> {
    Seq::new((6 * (size / 6)) as nat, |j: int| element_index(j) as u16)
}

/// The indices of an element buffer for `size` indices: the whole quads'.
pub open spec fn element_indices_u32(size: int) -> Seq<u32> {
    Seq::new((6 * (size / 6)) as nat, |j: int| element_index(j) as u32)
}

/// byteorder's `ByteOrder::write_u16_into` for `NativeEndian`: writes the
/// values of `src` into `dst`, which must be exactly twice as long (else it
/// panics), all in the machine's byte order, which is one of the two.
#[verifier::external_body]
fn write_u16s_native(src: &Vec<u16>, dst: &mut Vec<u8>)
    requires
        old(dst)@.len() == 2 * src@.len(),
    ensures
        holds_u16s(final(dst)@, src@, false) || holds_u16s(final(dst)@, src@, true),
{
    NativeEndian::write_u16_into(src.as_slice(), dst.as_mut_slice());
}

/// byteorder's `ByteOrder::write_u32_into` for `NativeEndian`: writes the
/// values of `src` into `dst`, which must be exactly four times as long (else
/// it panics), all in the machine's byte order, which is one of the two.
#[verifier::external_body]
fn write_u32s_native(src: &Vec<u32>, dst: &mut Vec<u8>)
    requires
        old(dst)@.len() == 4 * src@.len(),
    ensures
        holds_u32s(final(dst)@, src@, false) || holds_u32s(final(dst)@, src@, true),
{
    NativeEndian::write_u32_into(src.as_slice(), dst.as_mut_slice());
}

fn zeros(n: usize) -> (v: Vec<u8>)
    ensures
        v@.len() == n,
{
    let mut v: Vec<u8> = Vec::new();
    let mut k: usize = 0;
    while k < n
        invariant
            k <= n,
            v@.len() == k,
        decreases n - k,
    {
        v.push(0);
        k = k + 1;
    }
    v
}

fn corner_of(k: usize) -> (c: u32)
    requires
        k < 6,
    ensures
        c == quad_corner(k as int),
{
    if k == 0 {
        0
    } else if k == 1 {
        1
    } else if k == 2 {
        2
    } else if k == 3 {
        2
    } else if k == 4 {
        1
    } else {
        3
    }
}

proof fn lemma_element_index(i: int, k: int)
    requires
        0 <= i,
        0 <= k < 6,
    ensures
        element_index(6 * i + k) == 4 * i + quad_corner(k),
{
    assert((6 * i + k) / 6 == i) by (nonlinear_arith)
        requires
            0 <= i,
            0 <= k < 6,
    ;
    assert((6 * i + k) % 6 == k) by (nonlinear_arith)
        requires
            0 <= i,
            0 <= k < 6,
    ;
}

/// The element buffer that draws `size / 6` quads as two triangles each
/// (indices `4q, 4q+1, 4q+2, 4q+2, 4q+1, 4q+3` for quad `q`), every index in
/// the machine's byte order, with 16-bit indices unless the quads need 32-bit
/// ones.
pub fn generate_element_buffer(size: usize) -> (r: (Vec<u8>, ElementType))
    requires
        needs_wide(size as int) ==> size / 6 <= 0x3fff_ffff && 4 * size <= usize::MAX,
    ensures
        r.1 == (if needs_wide(size as int) {
            ElementType::UnsignedInt
        } else {
            ElementType::UnsignedShort
        }),
        !needs_wide(size as int) ==> holds_u16s(r.0@, element_indices_u16(size as int), false)
            || holds_u16s(r.0@, element_indices_u16(size as int), true),
        needs_wide(size as int) ==> holds_u32s(r.0@, element_indices_u32(size as int), false)
            || holds_u32s(r.0@, element_indices_u32(size as int), true),
{
    let n = size / 6;
    assert(6 * n <= size);
    if n < 5462 {
        let mut vals: Vec<u16> = Vec::new();
        let mut i: usize = 0;
        while i < n
            invariant
                n == size / 6,
                n < 5462,
                i <= n,
                vals@.len() == 6 * i,
                forall|j: int| 0 <= j < 6 * i ==> #[trigger] vals@[j] == element_index(j) as u16,
            decreases n - i,
        {
            let mut k: usize = 0;
            while k < 6
                invariant
                    n == size / 6,
                    n < 5462,
                    i < n,
                    k <= 6,
                    vals@.len() == 6 * i + k,
                    forall|j: int|
                        0 <= j < 6 * i + k ==> #[trigger] vals@[j] == element_index(j) as u16,
                decreases 6 - k,
            {
                proof {
                    lemma_element_index(i as int, k as int);
                }
                vals.push((i as u16) * 4 + (corner_of(k) as u16));
                k = k + 1;
            }
            i = i + 1;
        }
        proof {
            assert(vals@ =~= element_indices_u16(size as int));
        }
        let mut data = zeros(2 * vals.len());
        write_u16s_native(&vals, &mut data);
        (data, ElementType::UnsignedShort)
    } else {
        let mut vals: Vec<u32> = Vec::new();
        let mut i: usize = 0;
        while i < n
            invariant
                n == size / 6,
                n <= 0x3fff_ffff,
                24 * n <= usize::MAX,
                i <= n,
                vals@.len() == 6 * i,
                forall|j: int| 0 <= j < 6 * i ==> #[trigger] vals@[j] == element_index(j) as u32,
            decreases n - i,
        {
            let mut k: usize = 0;
            while k < 6
                invariant
                    n == size / 6,
                    n <= 0x3fff_ffff,
                    i < n,
                    k <= 6,
                    vals@.len() == 6 * i + k,
                    forall|j: int|
                        0 <= j < 6 * i + k ==> #[trigger] vals@[j] == element_index(j) as u32,
                decreases 6 - k,
            {
                proof {
                    lemma_element_index(i as int, k as int);
                }
                vals.push((i as u32) * 4 + corner_of(k));
                k = k + 1;
            }
            i = i + 1;
        }
        proof {
            assert(vals@ =~= element_indices_u32(size as int));
        }
        let mut data = zeros(4 * vals.len());
        write_u32s_native(&vals, &mut data);
        (data, ElementType::UnsignedInt)
    }
}

} // verus!
