//! A bridge that reads a columnar 64-bit signed integer array described by
//! the Arrow C Data Interface and folds it with a scalar into a single
//! aggregate: the sum of absolute differences, with wrapping 64-bit
//! arithmetic.
use vstd::prelude::*;

pub mod arrow;

verus! {

use crate::arrow::ArrowArray;
use crate::arrow::ArrowCDataInterfaceArray;
use crate::arrow::ArrowCDataInterfaceSchema;
use crate::arrow::ArrowError;
use crate::arrow::ArrowType;
use crate::arrow::cursor_shape_accepted;
use crate::arrow::spec_format_type;
use vstd::wrapping::i64_specs;

/// The absolute value of a 64-bit signed integer under wrapping
/// semantics: the one value without a representable magnitude maps to
/// itself.
pub open spec fn spec_wrapping_abs(x: i64) -> i64 {
    if x == i64::MIN {
        i64::MIN
    } else if x < 0 {
        (-(x as int)) as i64
    } else {
        x
    }
}

/// One fold step: add to the accumulator the magnitude of the difference
/// between an array item and the scalar, every operation wrapping around
/// the 64-bit signed range.
pub open spec fn reduction_step(accumulator: i64, array_item: i64, other: i64) -> i64 {
    i64_specs::wrapping_add(
        accumulator,
        spec_wrapping_abs(i64_specs::wrapping_sub(array_item, other)),
    )
}

/// The whole reduction: the fold of `reduction_step` over the values in
/// ordinal order, starting from zero.
pub open spec fn abs_diff_sum(values: Seq<i64>, other: i64) -> i64
    decreases values.len(),
{
    if values.len() == 0 {
        0i64
    } else {
        reduction_step(abs_diff_sum(values.drop_last(), other), values.last(), other)
    }
}

/// The same reduction in unbounded arithmetic: the exact sum of the
/// absolute differences.
pub open spec fn exact_abs_diff_sum(values: Seq<i64>, other: i64) -> int
    decreases values.len(),
{
    if values.len() == 0 {
        0int
    } else {
        exact_abs_diff_sum(values.drop_last(), other) + vstd::math::abs(
            values.last() - other,
        )
    }
}

/// The exact sum of absolute differences is never negative.
pub proof fn lemma_exact_abs_diff_sum_nonneg(values: Seq<i64>, other: i64)
    ensures
        0 <= exact_abs_diff_sum(values, other),
    decreases values.len(),
{
    if values.len() > 0 {
        lemma_exact_abs_diff_sum_nonneg(values.drop_last(), other);
    }
}

/// Correctness of the wrapping fold: whenever the exact sum of absolute
/// differences fits in the 64-bit signed range, no step of the fold
/// wraps, and the fold equals that exact sum.
pub proof fn lemma_abs_diff_sum_exact(values: Seq<i64>, other: i64)
    requires
        exact_abs_diff_sum(values, other) <= i64::MAX,
    ensures
        abs_diff_sum(values, other) == exact_abs_diff_sum(values, other),
    decreases values.len(),
{
    if values.len() > 0 {
        let prefix = values.drop_last();
        let difference = values.last() - other;
        lemma_exact_abs_diff_sum_nonneg(prefix, other);
        assert(exact_abs_diff_sum(prefix, other) <= i64::MAX);
        lemma_abs_diff_sum_exact(prefix, other);
        assert(vstd::math::abs(difference) <= i64::MAX);
    }
}

/// An empty array reduces to zero, whatever the scalar.
pub proof fn lemma_empty_reduction(other: i64)
    ensures
        abs_diff_sum(Seq::<i64>::empty(), other) == 0,
{
}

/// One fold step of the reduction: `accumulator + |array_item - other|`,
/// with every operation wrapping around the 64-bit signed range.
#[inline]
pub fn reduction_udf(accumulator: i64, array_item: i64, other: i64) -> (r: i64)
    ensures
        r == reduction_step(accumulator, array_item, other),
{
    let difference = array_item.wrapping_sub(other);
    let magnitude = if difference == i64::MIN {
        i64::MIN
    } else if difference < 0 {
        -difference
    } else {
        difference
    };
    accumulator.wrapping_add(magnitude)
}

/// Reduce a columnar 64-bit signed array, described by the interface's
/// two descriptor records, to the sum of the absolute differences of its
/// values from a scalar. Construction rejections come back unchanged;
/// on the supported shape the result is the wrapping fold over every
/// value in ordinal order.
pub fn euclidean_1d_scalar_sum(
    array: ArrowCDataInterfaceArray,
    schema: &ArrowCDataInterfaceSchema,
    other: i64,
) -> (r: Result<i64, ArrowError>)
    requires
        cursor_shape_accepted(&array, schema) ==> array.data_matches_length(),
    ensures
        (match spec_format_type(schema.format@) {
            Err(e) => r == Err::<i64, ArrowError>(e),
            Ok(t) => if t != ArrowType::Int64 {
                r == Err::<i64, ArrowError>(ArrowError::UnsupportedType(t))
            } else if array.n_buffers != 2 {
                r == Err::<i64, ArrowError>(ArrowError::UnsupportedBufferCount(array.n_buffers))
            } else {
                r == Ok::<i64, ArrowError>(abs_diff_sum(array.data@, other))
            },
        }),
{
    let ghost values: Seq<i64> = array.data@;
    let mut cursor = match ArrowArray::from(array, schema) {
        Ok(c) => c,
        Err(e) => {
            return Err(e);
        },
    };
    let mut accumulator: i64 = 0;
    loop
        invariant
            cursor.wf(),
            cursor.values() == values,
            0 <= cursor.pos() <= values.len(),
            accumulator == abs_diff_sum(values.take(cursor.pos()), other),
        ensures
            accumulator == abs_diff_sum(values, other),
        decreases values.len() - cursor.pos(),
    {
        let ghost prev_pos: int = cursor.pos();
        match cursor.next() {
            Some(item) => {
                accumulator = reduction_udf(accumulator, item, other);
                proof {
                    let taken = values.take(prev_pos + 1);
                    assert(taken.drop_last() =~= values.take(prev_pos));
                    assert(taken.last() == values[prev_pos]);
                }
            },
            None => {
                proof {
                    assert(values.take(cursor.pos()) =~= values);
                }
                break;
            },
        }
    }
    Ok(accumulator)
}

} // verus!
