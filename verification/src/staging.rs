//! Aligned staging copies into host-visible memory.
//!
//! Client data (vertices, indices, a uniform struct, raw pixels) is copied
//! into a mapped host-visible region before being handed to the accelerator.
//! Each element is written at a stride that rounds the element size up to the
//! type's natural alignment, so an element may be followed by padding bytes
//! that the copy leaves untouched. The model here works on plain bytes: an
//! element is a byte vector, a region is a byte vector, and the copy and the
//! read-back are characterized exactly, with a round-trip law relating them.

use vstd::prelude::*;
use vstd::arithmetic::mul::lemma_mul_inequality;
use vstd::pervasive::VecAdditionalExecFns;

verus! {

/// The padding the driver helper adds after a value of size `size` to reach
/// the next multiple of `align`.
pub open spec fn padding_for(size: nat, align: nat) -> nat
    recommends
        align > 0,
{
    (((align - size % align) as int % align as int) as nat)
}

/// The distance between consecutive elements in a staged region: the element
/// size rounded up to the alignment.
pub open spec fn stride_for(elem_size: nat, align: nat) -> nat
    recommends
        align > 0,
{
    elem_size + padding_for(elem_size, align)
}

/// Compute the stride for elements of the given size and alignment.
pub fn padded_stride(elem_size: usize, align: usize) -> (r: usize)
    requires
        0 < align,
        elem_size + align <= usize::MAX,
    ensures
        r == stride_for(elem_size as nat, align as nat),
        elem_size <= r < elem_size + align,
{
    let pad = (align - elem_size % align) % align;
    elem_size + pad
}

/// `s` with the bytes of `data` laid over it starting at `at`; everything
/// else keeps its old value.
pub open spec fn overlay(s: Seq<u8>, at: int, data: Seq<u8>) -> Seq<u8> {
    Seq::new(s.len(), |j: int| if at <= j < at + data.len() { data[j - at] } else { s[j] })
}

/// The region after every element of `elems` has been written at its
/// stride-aligned offset, in order.
pub open spec fn staged_region(region: Seq<u8>, elems: Seq<Seq<u8>>, stride: int) -> Seq<u8>
    decreases elems.len(),
{
    if elems.len() == 0 {
        region
    } else {
        overlay(
            staged_region(region, elems.drop_last(), stride),
            (elems.len() - 1) * stride,
            elems.last(),
        )
    }
}

/// The bytes of the element at index `i` of a staged region.
pub open spec fn element_at(region: Seq<u8>, i: int, elem_size: int, stride: int) -> Seq<u8> {
    region.subrange(i * stride, i * stride + elem_size)
}

/// The views of a sequence of byte vectors.
pub open spec fn elem_views(elems: Seq<Vec<u8>>) -> Seq<Seq<u8>> {
    elems.map_values(|v: Vec<u8>| v@)
}

/// Writing elements over a region keeps its length.
pub proof fn lemma_staged_len(region: Seq<u8>, elems: Seq<Seq<u8>>, stride: int)
    ensures
        staged_region(region, elems, stride).len() == region.len(),
    decreases elems.len(),
{
    if elems.len() > 0 {
        lemma_staged_len(region, elems.drop_last(), stride);
    }
}

/// Copy `elems`, each exactly `elem_size` bytes, into `region` at multiples
/// of `stride`: element `i` lands at offset `i * stride`, and the padding
/// between and after elements keeps whatever the region held before.
pub fn copy_aligned(elems: &Vec<Vec<u8>>, elem_size: usize, stride: usize, region: &mut Vec<u8>)
    requires
        elem_size <= stride,
        forall|i: int| 0 <= i < elems.len() ==> (#[trigger] elems@[i])@.len() == elem_size,
        elems.len() * stride <= old(region).len(),
    ensures
        final(region)@ == staged_region(old(region)@, elem_views(elems@), stride as int),
{
    let ghost orig: Seq<u8> = region@;
    let count = elems.len();
    let mut i: usize = 0;
    let mut base: usize = 0;
    while i < count
        invariant
            elem_size <= stride,
            forall|k: int| 0 <= k < elems.len() ==> (#[trigger] elems@[k])@.len() == elem_size,
            elems.len() * stride <= orig.len(),
            count * stride <= usize::MAX,
            count == elems.len(),
            i <= count,
            base == i * stride,
            region@ == staged_region(orig, elem_views(elems@).take(i as int), stride as int),
        decreases count - i,
    {
        proof {
            lemma_mul_inequality(i + 1 as int, count as int, stride as int);
            assert((i + 1) * stride == i * stride + stride) by (nonlinear_arith);
            lemma_staged_len(orig, elem_views(elems@).take(i as int), stride as int);
        }
        let ghost before: Seq<u8> = region@;
        let elem = &elems[i];
        proof {
            assert(region@ =~= overlay(before, base as int, elem@.take(0)));
        }
        let mut k: usize = 0;
        while k < elem_size
            invariant
                elem_size <= stride,
                i < count,
                count == elems.len(),
                elem@ == elems@[i as int]@,
                elem@.len() == elem_size,
                base == i * stride,
                base + stride <= before.len(),
                base + stride <= region.len(),
                region@.len() == before.len(),
                k <= elem_size,
                region@ == overlay(before, base as int, elem@.take(k as int)),
            decreases elem_size - k,
        {
            region.set(base + k, elem[k]);
            proof {
                assert(region@ =~= overlay(before, base as int, elem@.take(k + 1 as int)));
            }
            k = k + 1;
        }
        proof {
            assert(elem@.take(elem_size as int) == elem@);
            let views = elem_views(elems@);
            assert(views.take(i + 1 as int).drop_last() =~= views.take(i as int));
            assert(views.take(i + 1 as int).last() == elem@);
            assert(region@ =~= staged_region(orig, views.take(i + 1 as int), stride as int));
        }
        i = i + 1;
        base = base + stride;
    }
    proof {
        assert(elem_views(elems@).take(count as int) =~= elem_views(elems@));
    }
}

/// Read `count` elements of `elem_size` bytes back out of a staged region,
/// one at each multiple of `stride`.
pub fn read_staged(region: &Vec<u8>, count: usize, elem_size: usize, stride: usize) -> (r: Vec<
    Vec<u8>,
>)
    requires
        elem_size <= stride,
        count * stride <= region.len(),
    ensures
        r.len() == count,
        forall|i: int| 0 <= i < count
            ==> (#[trigger] r@[i])@ == element_at(region@, i, elem_size as int, stride as int),
{
    let mut r: Vec<Vec<u8>> = Vec::new();
    let mut i: usize = 0;
    let mut base: usize = 0;
    while i < count
        invariant
            elem_size <= stride,
            count * stride <= region.len(),
            count * stride <= usize::MAX,
            i <= count,
            base == i * stride,
            r.len() == i,
            forall|j: int| 0 <= j < i
                ==> (#[trigger] r@[j])@ == element_at(region@, j, elem_size as int, stride as int),
        decreases count - i,
    {
        proof {
            lemma_mul_inequality(i + 1 as int, count as int, stride as int);
            assert((i + 1) * stride == i * stride + stride) by (nonlinear_arith);
        }
        let mut elem: Vec<u8> = Vec::new();
        proof {
            assert(elem@ =~= region@.subrange(base as int, base as int));
        }
        let mut k: usize = 0;
        while k < elem_size
            invariant
                elem_size <= stride,
                i < count,
                base == i * stride,
                base + stride <= region.len(),
                k <= elem_size,
                elem@ == region@.subrange(base as int, base + k),
            decreases elem_size - k,
        {
            elem.push(region[base + k]);
            proof {
                assert(elem@ =~= region@.subrange(base as int, base + k + 1));
            }
            k = k + 1;
        }
        r.push(elem);
        i = i + 1;
        base = base + stride;
    }
    r
}

/// Split a list of 32-bit values into staging elements of four bytes each,
/// least significant first: decoding any element as a word gives the value
/// back.
pub fn le_elements(values: &Vec<u32>) -> (r: Vec<Vec<u8>>)
    ensures
        r@.len() == values@.len(),
        forall|i: int| 0 <= i < values@.len() ==> (#[trigger] r@[i])@.len() == 4,
        forall|i: int| 0 <= i < values@.len()
            ==> crate::spv::word_le((#[trigger] r@[i])@, 0) == values@[i],
{
    let mut r: Vec<Vec<u8>> = Vec::new();
    let mut i: usize = 0;
    while i < values.len()
        invariant
            i <= values@.len(),
            r@.len() == i,
            forall|j: int| 0 <= j < i ==> (#[trigger] r@[j])@.len() == 4,
            forall|j: int| 0 <= j < i ==> crate::spv::word_le((#[trigger] r@[j])@, 0) == values@[j],
        decreases values.len() - i,
    {
        let w = values[i];
        let mut elem: Vec<u8> = Vec::new();
        elem.push((w % 256) as u8);
        elem.push(((w / 256) % 256) as u8);
        elem.push(((w / 65536) % 256) as u8);
        elem.push((w / 16777216) as u8);
        proof {
            assert(elem@[0] + 256 * elem@[1] + 65536 * elem@[2] + 16777216 * elem@[3] == w)
                by (nonlinear_arith)
                requires
                    elem@[0] == (w % 256) as u8,
                    elem@[1] == ((w / 256) % 256) as u8,
                    elem@[2] == ((w / 65536) % 256) as u8,
                    elem@[3] == (w / 16777216) as u8,
            ;
        }
        r.push(elem);
        i = i + 1;
    }
    r
}

/// Law: data copied into a staging region and then read back, element by
/// element, equals the original input byte for byte, whatever the region
/// held before and whatever padding the stride inserts.
pub proof fn lemma_staging_round_trip(
    region: Seq<u8>,
    elems: Seq<Seq<u8>>,
    elem_size: int,
    stride: int,
)
    requires
        0 <= elem_size <= stride,
        forall|i: int| 0 <= i < elems.len() ==> (#[trigger] elems[i]).len() == elem_size,
        elems.len() * stride <= region.len(),
    ensures
        forall|i: int| 0 <= i < elems.len()
            ==> #[trigger] element_at(
                staged_region(region, elems, stride),
                i,
                elem_size,
                stride,
            ) == elems[i],
    decreases elems.len(),
{
    if elems.len() > 0 {
        let n = elems.len() as int;
        let inner = staged_region(region, elems.drop_last(), stride);
        let staged = staged_region(region, elems, stride);
        lemma_staged_len(region, elems.drop_last(), stride);
        lemma_staged_len(region, elems, stride);
        lemma_mul_inequality(n - 1, n, stride);
        lemma_staging_round_trip(region, elems.drop_last(), elem_size, stride);
        assert forall|i: int| 0 <= i < n implies #[trigger] element_at(
            staged,
            i,
            elem_size,
            stride,
        ) == elems[i] by {
            if i == n - 1 {
                assert(elems[i].len() == elem_size);
                assert(n * stride == (n - 1) * stride + stride) by (nonlinear_arith);
                assert(element_at(staged, i, elem_size, stride) =~= elems[i]);
            } else {
                lemma_mul_inequality(i + 1, n - 1, stride);
                assert((i + 1) * stride == i * stride + stride) by (nonlinear_arith);
                assert(element_at(staged, i, elem_size, stride) =~= element_at(
                    inner,
                    i,
                    elem_size,
                    stride,
                ));
                assert(element_at(inner, i, elem_size, stride) == elems.drop_last()[i]);
            }
        }
    }
}

} // verus!
