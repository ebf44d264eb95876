//! Spitz: a small multi-layer perceptron training engine.
//!
//! This crate holds the structural side of the engine, proved correct:
//! the layer-by-layer architecture and its freezing, the shapes of the
//! weight matrices, the train/test split and the batching of a dataset
//! into row ranges, the shape checks of the forward and backward passes,
//! and the training configuration. The numeric kernels run on top of
//! these plans and never decide a shape or an index themselves.

pub mod activation;
pub mod architecture;
pub mod blueprint;
pub mod dataset;
pub mod error;
pub mod forward;
pub mod shape;

pub use activation::Activation;
pub use error::NetError;
pub use architecture::{Architecture, FrozenArchitecture, Layer};
pub use shape::{RowRange, Shape};
pub use dataset::{check_aligned, rebatch, split_train_test, Split};
pub use forward::{forward_shapes, gradient_shapes};
pub use blueprint::{Blueprint, Layout, DEFAULT_BATCHES, DEFAULT_EPOCHS};
