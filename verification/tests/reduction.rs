use arrow_reduce::arrow::ArrowCDataInterfaceArray;
use arrow_reduce::arrow::ArrowCDataInterfaceSchema;
use arrow_reduce::arrow::ArrowError;
use arrow_reduce::arrow::ArrowType;
use arrow_reduce::euclidean_1d_scalar_sum;
use arrow_reduce::reduction_udf;

fn int64_schema() -> ArrowCDataInterfaceSchema {
    ArrowCDataInterfaceSchema { format: String::from("l") }
}

fn two_buffer_array(data: Vec<i64>) -> ArrowCDataInterfaceArray {
    ArrowCDataInterfaceArray {
        length: data.len() as i64,
        null_count: 0,
        offset: 0,
        n_buffers: 2,
        n_children: 0,
        validity: Vec::new(),
        data,
    }
}

#[test]
fn sum_of_absolute_differences() {
    let array = two_buffer_array(vec![3, 7, -2, 10]);
    let result = euclidean_1d_scalar_sum(array, &int64_schema(), 5);
    assert_eq!(result, Ok(16));
}

#[test]
fn empty_array_reduces_to_zero() {
    let array = two_buffer_array(Vec::new());
    let result = euclidean_1d_scalar_sum(array, &int64_schema(), 42);
    assert_eq!(result, Ok(0));
}

#[test]
fn equal_values_reduce_to_zero() {
    let array = two_buffer_array(vec![5, 5, 5]);
    let result = euclidean_1d_scalar_sum(array, &int64_schema(), 5);
    assert_eq!(result, Ok(0));
}

#[test]
fn three_buffers_rejected_with_observed_count() {
    let mut array = two_buffer_array(vec![1, 2, 3]);
    array.n_buffers = 3;
    let result = euclidean_1d_scalar_sum(array, &int64_schema(), 0);
    assert_eq!(result, Err(ArrowError::UnsupportedBufferCount(3)));
    let message = format!("{:?}", result.unwrap_err());
    assert!(message.contains("3"));
}

#[test]
fn single_buffer_rejected_with_observed_count() {
    let mut array = two_buffer_array(Vec::new());
    array.n_buffers = 1;
    let result = euclidean_1d_scalar_sum(array, &int64_schema(), 0);
    assert_eq!(result, Err(ArrowError::UnsupportedBufferCount(1)));
}

#[test]
fn float_format_rejected_as_unsupported_type() {
    let schema = ArrowCDataInterfaceSchema { format: String::from("f") };
    let array = two_buffer_array(vec![1, 2, 3]);
    let result = euclidean_1d_scalar_sum(array, &schema, 0);
    assert_eq!(result, Err(ArrowError::UnsupportedType(ArrowType::Float32)));
}

#[test]
fn unrecognized_format_rejected() {
    let schema = ArrowCDataInterfaceSchema { format: String::from("x") };
    let array = two_buffer_array(vec![1]);
    let result = euclidean_1d_scalar_sum(array, &schema, 0);
    assert_eq!(result, Err(ArrowError::UnrecognizedFormat));
}

#[test]
fn extreme_values_wrap_silently() {
    // |i64::MIN - 0| has no representable magnitude and wraps to i64::MIN;
    // adding |i64::MAX - 0| then wraps the accumulator to -1.
    let array = two_buffer_array(vec![i64::MIN, i64::MAX]);
    let result = euclidean_1d_scalar_sum(array, &int64_schema(), 0);
    assert_eq!(result, Ok(-1));
}

#[test]
fn reduction_udf_adds_absolute_difference() {
    assert_eq!(reduction_udf(0, 3, 5), 2);
    assert_eq!(reduction_udf(10, -2, 5), 17);
    assert_eq!(reduction_udf(0, -5, 0), 5);
}

#[test]
fn reduction_udf_wraps_at_the_edges() {
    assert_eq!(reduction_udf(0, i64::MIN, 0), i64::MIN);
    assert_eq!(reduction_udf(i64::MAX, 1, 0), i64::MIN);
    assert_eq!(reduction_udf(0, i64::MAX, -1), i64::MIN);
}

#[test]
fn negative_scalar_scenario() {
    // |1 - (-3)| + |-1 - (-3)| = 4 + 2 = 6
    let array = two_buffer_array(vec![1, -1]);
    let result = euclidean_1d_scalar_sum(array, &int64_schema(), -3);
    assert_eq!(result, Ok(6));
}
