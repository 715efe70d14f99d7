use vstd::prelude::*;

verus! {

/// The engine's sole error: a vector length disagrees with the
/// configured dimensions.
#[derive(Clone, Copy, Debug, PartialEq, Eq, Structural)]
pub struct DimensionMismatch;

/// Accepts an input vector for forward evaluation exactly when its
/// length equals the configured input size.
pub fn validate_input(input_len: usize, input_size: usize) -> (r: Result<(), DimensionMismatch>)
    ensures
        r is Ok <==> input_len == input_size,
{
    if input_len == input_size {
        Ok(())
    } else {
        Err(DimensionMismatch)
    }
}

/// Accepts a training set exactly when there is one target per example.
pub fn validate_training_set(inputs_len: usize, targets_len: usize) -> (r: Result<
    (),
    DimensionMismatch,
>)
    ensures
        r is Ok <==> inputs_len == targets_len,
{
    if inputs_len == targets_len {
        Ok(())
    } else {
        Err(DimensionMismatch)
    }
}

} // verus!
