use vstd::prelude::*;
use crate::EngineError;

verus! {

/// Shape agreement for `C := alpha * (A * B^t) + beta * C`: A is `(m, k)`,
/// B is stored transposed as `(n, k)`, and C must be `(m, n)`.
pub open spec fn matmul_transb_shapes_ok(
    c_shape: Seq<usize>,
    a_shape: Seq<usize>,
    b_shape: Seq<usize>,
) -> bool {
    &&& a_shape.len() == 2
    &&& b_shape.len() == 2
    &&& c_shape.len() == 2
    &&& a_shape[1] == b_shape[1]
    &&& c_shape[0] == a_shape[0]
    &&& c_shape[1] == b_shape[0]
}

/// Validates the operand shapes of the transposed-B matrix multiply and
/// yields its dimensions `(m, k, n)`; any disagreement is a shape error.
pub fn matmul_transb_dims(
    c_shape: &Vec<usize>,
    a_shape: &Vec<usize>,
    b_shape: &Vec<usize>,
) -> (r: Result<(usize, usize, usize), EngineError>)
    ensures
        match r {
            Ok((m, k, n)) => {
                &&& matmul_transb_shapes_ok(c_shape@, a_shape@, b_shape@)
                &&& m == a_shape@[0]
                &&& k == a_shape@[1]
                &&& n == b_shape@[0]
            },
            Err(e) => {
                &&& e == EngineError::ShapeError
                &&& !matmul_transb_shapes_ok(c_shape@, a_shape@, b_shape@)
            },
        },
{
    if a_shape.len() != 2 || b_shape.len() != 2 || c_shape.len() != 2 {
        return Err(EngineError::ShapeError);
    }
    let m: usize = a_shape[0];
    let k: usize = a_shape[1];
    let n: usize = b_shape[0];
    if b_shape[1] != k || c_shape[0] != m || c_shape[1] != n {
        return Err(EngineError::ShapeError);
    }
    Ok((m, k, n))
}

/// Shape agreement for the row-wise RMS normalization: `x` is a matrix of
/// rows to normalize and the weight is one scale per column.
pub open spec fn rms_norm_shapes_ok(x_shape: Seq<usize>, w_shape: Seq<usize>) -> bool {
    &&& x_shape.len() == 2
    &&& w_shape.len() == 1
    &&& w_shape[0] == x_shape[1]
}

/// Validates the operand shapes of the RMS normalization and yields
/// `(rows, width)`; any disagreement is a shape error.
pub fn rms_norm_dims(x_shape: &Vec<usize>, w_shape: &Vec<usize>) -> (r: Result<
    (usize, usize),
    EngineError,
>)
    ensures
        match r {
            Ok((rows, width)) => {
                &&& rms_norm_shapes_ok(x_shape@, w_shape@)
                &&& rows == x_shape@[0]
                &&& width == x_shape@[1]
            },
            Err(e) => {
                &&& e == EngineError::ShapeError
                &&& !rms_norm_shapes_ok(x_shape@, w_shape@)
            },
        },
{
    if x_shape.len() != 2 || w_shape.len() != 1 {
        return Err(EngineError::ShapeError);
    }
    let rows: usize = x_shape[0];
    let width: usize = x_shape[1];
    if w_shape[0] != width {
        return Err(EngineError::ShapeError);
    }
    Ok((rows, width))
}

/// Which cached positions a query at `pos` may attend to under the causal
/// mask: exactly the positions at or before it.
pub open spec fn may_attend(pos: int, other: int) -> bool {
    other <= pos
}

/// The length of the causal attention window of a query at position `pos`:
/// the positions `0 ..= pos`, so every strictly later position gets zero
/// weight by never entering the window.
pub fn causal_window_len(pos: usize) -> (r: usize)
    requires
        pos < usize::MAX,
    ensures
        r == pos + 1,
        forall|other: int| 0 <= other < r <==> (0 <= other && may_attend(pos as int, other)),
{
    pos + 1
}

} // verus!
