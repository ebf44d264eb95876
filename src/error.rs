use vstd::prelude::*;

verus! {

/// Why an operation of the engine was refused.
#[derive(Clone, Copy, Debug, PartialEq, Eq, Structural)]
pub enum NetError {
    /// The architecture or the data are under-specified: no input width,
    /// no layer, a zero-sized layer, a zero batch size, missing data.
    Configuration,
    /// Two matrices that must agree in shape do not: features and labels
    /// with different row counts, or factors of a product that do not fit.
    ShapeMismatch,
    /// A split ratio outside the open interval `(0, 1)`.
    Range,
    /// Training or inference asked of a network that was not initialized.
    NotInitialized,
}

} // verus!
