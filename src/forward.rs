use vstd::prelude::*;

use crate::architecture::{weight_shapes_of, FrozenArchitecture};
use crate::error::NetError;
use crate::shape::Shape;

verus! {

/// The products of a forward pass fit: the input has as many columns as the
/// first weight matrix has rows, and each weight matrix has as many columns
/// as the next one has rows.
pub open spec fn fits(weights: Seq<Shape>, input: Shape) -> bool {
    &&& weights.len() > 0
    &&& input.cols == weights[0].rows
    &&& forall|i: int| 0 < i < weights.len() ==> #[trigger] weights[i].rows == weights[i - 1].cols
}

/// The shapes of the activations of a forward pass: the input, then one
/// matrix per layer with the input's rows and the layer's output columns.
pub open spec fn trace_of(weights: Seq<Shape>, input: Shape) -> Seq<Shape> {
    Seq::new(
        weights.len() + 1,
        |i: int|
            if i == 0 {
                input
            } else {
                Shape { rows: input.rows, cols: weights[i - 1].cols }
            },
    )
}

/// The shape of the gradient of each layer: the transposed input
/// activation of the layer times the error at its output.
pub open spec fn gradients_of(trace: Seq<Shape>) -> Seq<Shape> {
    Seq::new(
        (trace.len() - 1) as nat,
        |l: int| Shape { rows: trace[l].cols, cols: trace[l + 1].cols },
    )
}

/// Checks a forward pass of `input` through weight matrices of the given
/// shapes, and gives the shape of every activation it produces.
pub fn forward_shapes(weights: &Vec<Shape>, input: Shape) -> (r: Result<Vec<Shape>, NetError>)
    ensures
        weights@.len() == 0 ==> r == Err::<Vec<Shape>, NetError>(NetError::NotInitialized),
        weights@.len() > 0 && !fits(weights@, input) ==> r == Err::<Vec<Shape>, NetError>(
            NetError::ShapeMismatch,
        ),
        fits(weights@, input) ==> r is Ok && r->Ok_0@ == trace_of(weights@, input),
{
    if weights.len() == 0 {
        return Err(NetError::NotInitialized);
    }
    let mut trace: Vec<Shape> = Vec::new();
    trace.push(input);
    let mut current: Shape = input;
    let mut i: usize = 0;
    while i < weights.len()
        invariant
            i <= weights@.len(),
            weights@.len() > 0,
            trace@.len() == i + 1,
            current == trace@[i as int],
            input.cols == weights@[0].rows || i == 0,
            forall|k: int| 0 < k < i ==> #[trigger] weights@[k].rows == weights@[k - 1].cols,
            i > 0 ==> current.cols == weights@[i - 1].cols,
            forall|k: int| 0 <= k <= i ==> #[trigger] trace@[k] == trace_of(weights@, input)[k],
        decreases weights@.len() - i,
    {
        let w = weights[i];
        if current.cols != w.rows {
            return Err(NetError::ShapeMismatch);
        }
        current = Shape::new(input.rows, w.cols);
        trace.push(current);
        i = i + 1;
    }
    assert(trace@ =~= trace_of(weights@, input));
    Ok(trace)
}

/// Checks a training step on a batch of features `x` and labels `y`: the
/// forward pass must fit, and the labels must have the shape of the final
/// activation. Gives the shape of each layer's gradient.
pub fn gradient_shapes(weights: &Vec<Shape>, x: Shape, y: Shape) -> (r: Result<
    Vec<Shape>,
    NetError,
>)
    ensures
        weights@.len() == 0 ==> r == Err::<Vec<Shape>, NetError>(NetError::NotInitialized),
        weights@.len() > 0 && !(fits(weights@, x) && y == trace_of(weights@, x).last()) ==> r
            == Err::<Vec<Shape>, NetError>(NetError::ShapeMismatch),
        fits(weights@, x) && y == trace_of(weights@, x).last() ==> r is Ok && r->Ok_0@
            == gradients_of(trace_of(weights@, x)) && r->Ok_0@ == weights@,
{
    let trace = match forward_shapes(weights, x) {
        Ok(t) => t,
        Err(e) => {
            return Err(e);
        },
    };
    let last = trace[trace.len() - 1];
    if y != last {
        return Err(NetError::ShapeMismatch);
    }
    let mut grads: Vec<Shape> = Vec::new();
    let mut l: usize = 0;
    while l < weights.len()
        invariant
            trace@ == trace_of(weights@, x),
            fits(weights@, x),
            l <= weights@.len(),
            grads@ == gradients_of(trace@).subrange(0, l as int),
            grads@ == weights@.subrange(0, l as int),
        decreases weights@.len() - l,
    {
        proof {
            if l > 0 {
                assert(weights@[l as int].rows == weights@[l - 1].cols);
            }
            assert(trace@[l as int].cols == weights@[l as int].rows);
            assert(trace@[l + 1].cols == weights@[l as int].cols);
        }
        grads.push(Shape::new(trace[l].cols, trace[l + 1].cols));
        assert(grads@ =~= gradients_of(trace@).subrange(0, l + 1));
        assert(grads@ =~= weights@.subrange(0, l + 1));
        l = l + 1;
    }
    assert(grads@ =~= gradients_of(trace@));
    assert(grads@ =~= weights@);
    Ok(grads)
}

/// Feeding a finished architecture's weight matrices an input with as many
/// columns as the first layer reads succeeds: there is one activation per
/// layer after the input, and the final one has the input's rows and as
/// many columns as the last layer writes.
pub proof fn lemma_forward_output_shape(arch: FrozenArchitecture, input: Shape)
    requires
        arch.wf(),
        input.cols == arch@[0].input,
    ensures
        fits(weight_shapes_of(arch@), input),
        trace_of(weight_shapes_of(arch@), input).len() == arch@.len() + 1,
        trace_of(weight_shapes_of(arch@), input).last() == (Shape {
            rows: input.rows,
            cols: arch@.last().size,
        }),
{
    let w = weight_shapes_of(arch@);
    assert forall|i: int| 0 < i < w.len() implies #[trigger] w[i].rows == w[i - 1].cols by {
        assert(arch@[i].input == arch@[i - 1].size);
    }
}

} // verus!
