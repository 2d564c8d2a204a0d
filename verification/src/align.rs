//! Alignment arithmetic on addresses.

use vstd::prelude::*;

verus! {

/// The largest multiple of `alignment` that is not above `value`.
pub open spec fn spec_align_down(value: int, alignment: int) -> int {
    value - value % alignment
}

/// The smallest multiple of `alignment` that is not below `value`.
pub open spec fn spec_align_up(value: int, alignment: int) -> int {
    spec_align_down(value + alignment - 1, alignment)
}

/// Whether `value` is a multiple of `alignment`.
pub open spec fn is_aligned(value: int, alignment: int) -> bool {
    value % alignment == 0
}

/// Rounding down and rounding up enclose the value, both land on multiples of
/// the alignment, and they are either equal or exactly one alignment apart.
pub proof fn lemma_align_enclose(value: int, alignment: int)
    requires
        alignment > 0,
    ensures
        spec_align_down(value, alignment) <= value <= spec_align_up(value, alignment),
        is_aligned(spec_align_down(value, alignment), alignment),
        is_aligned(spec_align_up(value, alignment), alignment),
        spec_align_up(value, alignment) - spec_align_down(value, alignment) == 0
            || spec_align_up(value, alignment) - spec_align_down(value, alignment) == alignment,
{
    lemma_align_up_by_remainder(value, alignment);
    lemma_align_down_is_aligned(value, alignment);
    lemma_align_down_is_aligned(value + alignment - 1, alignment);
}

/// Rounding down yields a multiple of the alignment, less than one alignment
/// below the value.
pub proof fn lemma_align_down_is_aligned(value: int, alignment: int)
    requires
        alignment > 0,
    ensures
        is_aligned(spec_align_down(value, alignment), alignment),
        spec_align_down(value, alignment) == alignment * (value / alignment),
        spec_align_down(value, alignment) <= value < spec_align_down(value, alignment) + alignment,
{
    let quotient = value / alignment;
    assert(value == alignment * quotient + value % alignment && 0 <= value % alignment < alignment)
        by (nonlinear_arith)
        requires
            alignment > 0,
            quotient == value / alignment,
    ;
    assert((alignment * quotient) % alignment == 0) by (nonlinear_arith)
        requires
            alignment > 0,
    ;
}

/// Rounding up leaves an aligned value alone and otherwise adds what is
/// missing to the next multiple.
pub proof fn lemma_align_up_by_remainder(value: int, alignment: int)
    requires
        alignment > 0,
    ensures
        value % alignment == 0 ==> spec_align_up(value, alignment) == value,
        value % alignment != 0 ==> spec_align_up(value, alignment) == value + alignment - value
            % alignment,
        spec_align_up(value, alignment) == spec_align_down(value, alignment) + (if value
            % alignment == 0 {
            0
        } else {
            alignment
        }),
{
    let remainder = value % alignment;
    let quotient = value / alignment;
    let raised = value + alignment - 1;
    assert(value == alignment * quotient + remainder && 0 <= remainder < alignment)
        by (nonlinear_arith)
        requires
            alignment > 0,
            quotient == value / alignment,
            remainder == value % alignment,
    ;
    if remainder == 0 {
        assert(raised % alignment == alignment - 1) by (nonlinear_arith)
            requires
                alignment > 0,
                raised == alignment * quotient + (alignment - 1),
        ;
    } else {
        assert(raised % alignment == remainder - 1) by (nonlinear_arith)
            requires
                alignment > 0,
                0 < remainder < alignment,
                raised == alignment * quotient + alignment + (remainder - 1),
        ;
    }
}

/// Rounds `value` down to a multiple of `alignment`.
pub fn align_down(value: usize, alignment: usize) -> (aligned: usize)
    requires
        alignment > 0,
    ensures
        aligned == spec_align_down(value as int, alignment as int),
{
    proof {
        lemma_align_down_is_aligned(value as int, alignment as int);
    }
    value - value % alignment
}

/// Rounds `value` up to a multiple of `alignment`, or gives `None` when that
/// multiple does not fit in an address.
pub fn align_up(value: usize, alignment: usize) -> (aligned: Option<usize>)
    requires
        alignment > 0,
    ensures
        match aligned {
            Some(address) => address == spec_align_up(value as int, alignment as int),
            None => spec_align_up(value as int, alignment as int) > usize::MAX,
        },
{
    proof {
        lemma_align_up_by_remainder(value as int, alignment as int);
    }
    let remainder: usize = value % alignment;
    if remainder == 0 {
        Some(value)
    } else {
        value.checked_add(alignment - remainder)
    }
}

} // verus!
