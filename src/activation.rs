use vstd::prelude::*;

verus! {

/// The transfer functions a layer can apply to its weighted input.
///
/// - `Relu`: `f(x) = max(x, 0)`, derivative `0` where `x < 0`, else `1`.
/// - `Sigmoid`: `f(x) = 1 / (1 + exp(-x))`, derivative `f(x) * (1 - f(x))`.
/// - `Linear`: `f(x) = x`, derivative `1`.
#[derive(Clone, Copy, Debug, PartialEq, Eq, Structural)]
pub enum Activation {
    Relu,
    Sigmoid,
    Linear,
}

} // verus!
