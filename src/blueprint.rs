use vstd::prelude::*;

use crate::activation::Activation;
use crate::architecture::{non_degenerate, weight_shapes_of, Architecture, FrozenArchitecture, Layer};
use crate::dataset::{batch_ranges, check_aligned, rebatch, split_of, split_train_test, Split};
use crate::error::NetError;
use crate::forward::{forward_shapes, gradient_shapes, gradients_of, fits, trace_of};
use crate::shape::{RowRange, Shape};

verus! {

/// Epochs run by `fit` unless configured otherwise.
pub const DEFAULT_EPOCHS: usize = 15;

/// Rows per training batch unless configured otherwise.
pub const DEFAULT_BATCHES: usize = 15;

/// What initialization fixes for the network's lifetime: the frozen
/// layers, the shape of each weight matrix, and the row range of each
/// training batch.
#[derive(Clone, Debug)]
pub struct Layout {
    layers: FrozenArchitecture,
    weights: Vec<Shape>,
    batches: Vec<RowRange>,
}

impl Layout {
    /// The frozen layers.
    pub closed spec fn layers_spec(&self) -> FrozenArchitecture {
        self.layers
    }

    /// The weight matrix shapes, in layer order.
    pub closed spec fn weights_spec(&self) -> Seq<Shape> {
        self.weights@
    }

    /// The training batches' row ranges, in order.
    pub closed spec fn batches_spec(&self) -> Seq<RowRange> {
        self.batches@
    }

    /// The layers are a finished architecture and the weight matrices have
    /// the shapes its layers ask for.
    pub open spec fn wf(&self) -> bool {
        &&& self.layers_spec().wf()
        &&& self.weights_spec() == weight_shapes_of(self.layers_spec()@)
    }

    /// The frozen layers.
    pub fn layers(&self) -> (r: &FrozenArchitecture)
        ensures
            r == self.layers_spec(),
    {
        &self.layers
    }

    /// The shape of each layer's weight matrix, in layer order.
    pub fn weight_shapes(&self) -> (r: &Vec<Shape>)
        ensures
            r@ == self.weights_spec(),
    {
        &self.weights
    }

    /// The rows of each training batch, in order.
    pub fn batches(&self) -> (r: &Vec<RowRange>)
        ensures
            r@ == self.batches_spec(),
    {
        &self.batches
    }
}

/// Two architectures with the same layers and the same declared input.
pub open spec fn same_architecture(a: Architecture, b: Architecture) -> bool {
    a.layer_seq() == b.layer_seq() && a.declared_input() == b.declared_input()
}

/// The structure of a network, apart from its numbers: the architecture
/// being built, the epoch count and batch size, the row counts of the
/// imported training and test data, and, once initialized, its layout.
#[derive(Clone, Debug)]
pub struct Blueprint {
    pub architecture: Architecture,
    pub epochs: usize,
    pub batches: usize,
    pub train_rows: Option<usize>,
    pub test_rows: Option<usize>,
    pub layout: Option<Layout>,
}

impl Blueprint {
    /// The architecture is well formed, and so is the layout if there is one.
    pub open spec fn wf(&self) -> bool {
        &&& self.architecture.wf()
        &&& self.layout is Some ==> self.layout->0.wf()
    }

    /// A blueprint with no layer, no data, the default epoch count and batch
    /// size, and no layout.
    pub fn new() -> (r: Blueprint)
        ensures
            r.wf(),
            r.architecture.layer_seq() == Seq::<Layer>::empty(),
            r.architecture.declared_input() is None,
            r.epochs == DEFAULT_EPOCHS,
            r.batches == DEFAULT_BATCHES,
            r.train_rows is None,
            r.test_rows is None,
            r.layout is None,
    {
        Blueprint {
            architecture: Architecture::new(),
            epochs: DEFAULT_EPOCHS,
            batches: DEFAULT_BATCHES,
            train_rows: None,
            test_rows: None,
            layout: None,
        }
    }

    /// Sets the number of epochs.
    pub fn set_epochs(&mut self, epochs: i32)
        requires
            epochs >= 0,
        ensures
            *final(self) == (Blueprint { epochs: epochs as usize, ..*old(self) }),
    {
        self.epochs = epochs as usize;
    }

    /// Sets the number of rows per training batch.
    pub fn set_batches(&mut self, batches: i32)
        requires
            batches >= 0,
        ensures
            *final(self) == (Blueprint { batches: batches as usize, ..*old(self) }),
    {
        self.batches = batches as usize;
    }

    /// Declares the input width of the first layer.
    pub fn input_layer(&mut self, neurons: usize)
        requires
            old(self).wf(),
        ensures
            final(self).wf(),
            final(self).architecture.layer_seq() == old(self).architecture.layer_seq(),
            old(self).architecture.layer_seq().len() == 0 ==> final(self).architecture.declared_input() == Some(
                neurons,
            ),
            old(self).architecture.layer_seq().len() > 0 ==> final(self).architecture.declared_input()
                == old(self).architecture.declared_input(),
            *final(self) == (Blueprint { architecture: final(self).architecture, ..*old(self) }),
    {
        self.architecture.input_layer(neurons);
    }

    /// Appends a layer of `neurons` outputs to the architecture.
    pub fn add_layer(&mut self, neurons: usize, activation: Activation) -> (r: Result<(), NetError>)
        requires
            old(self).wf(),
        ensures
            final(self).wf(),
            final(self).architecture.declared_input() == old(self).architecture.declared_input(),
            r is Err <==> old(self).architecture.next_input() is None,
            r is Err ==> r->Err_0 == NetError::Configuration && final(self).architecture.layer_seq()
                == old(self).architecture.layer_seq(),
            r is Ok ==> final(self).architecture.layer_seq() == old(self).architecture.layer_seq().push(
                Layer {
                    input: old(self).architecture.next_input()->0,
                    size: neurons,
                    activation,
                },
            ),
            *final(self) == (Blueprint { architecture: final(self).architecture, ..*old(self) }),
    {
        self.architecture.add_layer(neurons, activation)
    }

    /// Records training features of shape `x` and labels of shape `y`.
    /// Fails, changing nothing, when their row counts differ.
    pub fn import_train_datas(&mut self, x: Shape, y: Shape) -> (r: Result<(), NetError>)
        ensures
            r is Ok <==> x.rows == y.rows,
            r is Err ==> r->Err_0 == NetError::ShapeMismatch && *final(self) == *old(self),
            r is Ok ==> *final(self) == (Blueprint { train_rows: Some(x.rows), ..*old(self) }),
    {
        match check_aligned(x.rows, y.rows) {
            Ok(()) => {
                self.train_rows = Some(x.rows);
                Ok(())
            },
            Err(e) => Err(e),
        }
    }

    /// Records test features of shape `x` and labels of shape `y`.
    /// Fails, changing nothing, when their row counts differ.
    pub fn import_test_datas(&mut self, x: Shape, y: Shape) -> (r: Result<(), NetError>)
        ensures
            r is Ok <==> x.rows == y.rows,
            r is Err ==> r->Err_0 == NetError::ShapeMismatch && *final(self) == *old(self),
            r is Ok ==> *final(self) == (Blueprint { test_rows: Some(x.rows), ..*old(self) }),
    {
        match check_aligned(x.rows, y.rows) {
            Ok(()) => {
                self.test_rows = Some(x.rows);
                Ok(())
            },
            Err(e) => Err(e),
        }
    }

    /// Splits features of shape `x` and labels of shape `y` into a training
    /// head and a test tail, `wanted_test` being the row count times the test
    /// ratio, rounded, and records both parts. Fails, changing nothing, as
    /// `split_train_test` does.
    pub fn import_datas(&mut self, x: Shape, y: Shape, wanted_test: usize) -> (r: Result<
        Split,
        NetError,
    >)
        ensures
            x.rows != y.rows ==> r == Err::<Split, NetError>(NetError::ShapeMismatch),
            x.rows == y.rows && x.rows < 2 ==> r == Err::<Split, NetError>(
                NetError::Configuration,
            ),
            x.rows == y.rows && x.rows >= 2 ==> r == Ok::<Split, NetError>(
                split_of(x.rows as int, wanted_test as int),
            ),
            r is Err ==> *final(self) == *old(self),
            r is Ok ==> *final(self) == (Blueprint {
                train_rows: Some(r->Ok_0.train.end),
                test_rows: Some((r->Ok_0.test.end - r->Ok_0.test.start) as usize),
                ..*old(self)
            }),
    {
        match split_train_test(x.rows, y.rows, wanted_test) {
            Ok(split) => {
                self.train_rows = Some(split.train.end);
                self.test_rows = Some(split.test.end - split.test.start);
                Ok(split)
            },
            Err(e) => Err(e),
        }
    }

    /// Freezes the architecture, fixes the shape of each weight matrix and
    /// cuts the training rows into batches. Fails with a configuration
    /// error, changing nothing, when there is no training data, no layer, a
    /// zero-wide layer or a zero batch size.
    pub fn init(&mut self) -> (r: Result<(), NetError>)
        requires
            old(self).wf(),
        ensures
            final(self).wf(),
            r is Ok <==> old(self).train_rows is Some && old(self).architecture.layer_seq().len()
                > 0 && non_degenerate(old(self).architecture.layer_seq()) && old(self).batches > 0,
            r is Err ==> r->Err_0 == NetError::Configuration && *final(self) == *old(self),
            r is Ok ==> ({
                let l = final(self).layout->0;
                &&& final(self).layout is Some
                &&& l.layers_spec()@ == old(self).architecture.layer_seq()
                &&& l.weights_spec() == weight_shapes_of(old(self).architecture.layer_seq())
                &&& l.batches_spec() == batch_ranges(
                    old(self).train_rows->0 as nat,
                    old(self).batches as nat,
                )
            }),
            r is Ok ==> *final(self) == (Blueprint { layout: final(self).layout, ..*old(self) }),
    {
        let rows = match self.train_rows {
            Some(n) => n,
            None => {
                return Err(NetError::Configuration);
            },
        };
        let layers = match self.architecture.freeze() {
            Ok(f) => f,
            Err(e) => {
                return Err(e);
            },
        };
        let batches = match rebatch(rows, rows, self.batches) {
            Ok(b) => b,
            Err(e) => {
                return Err(e);
            },
        };
        let weights = layers.weight_shapes();
        self.layout = Some(Layout { layers, weights, batches });
        Ok(())
    }

    /// A copy of the architecture as built so far.
    pub fn get_architecture(&self) -> (r: Architecture)
        ensures
            same_architecture(r, self.architecture),
    {
        self.architecture.snapshot()
    }

    /// Checks a forward pass of an input of the given shape and gives the
    /// shape of every activation. Fails when the network was not
    /// initialized, or when the input does not have as many columns as the
    /// first layer reads.
    pub fn check_input(&self, input: Shape) -> (r: Result<Vec<Shape>, NetError>)
        requires
            self.wf(),
        ensures
            self.layout is None ==> r == Err::<Vec<Shape>, NetError>(
                NetError::NotInitialized,
            ),
            self.layout is Some ==> ({
                let w = self.layout->0.weights_spec();
                &&& fits(w, input) <==> r is Ok
                &&& fits(w, input) <==> input.cols == self.layout->0.layers_spec()@[0].input
                &&& r is Ok ==> r->Ok_0@ == trace_of(w, input)
                &&& r is Err ==> r->Err_0 == NetError::ShapeMismatch
            }),
    {
        match &self.layout {
            None => Err(NetError::NotInitialized),
            Some(l) => {
                proof {
                    crate::architecture::lemma_one_weight_matrix_per_layer(l.layers);
                }
                forward_shapes(&l.weights, input)
            },
        }
    }

    /// Checks a training step on a batch of features `x` and labels `y` and
    /// gives the shape of each layer's gradient, which is that of its weight
    /// matrix. Fails when the network was not initialized, or when the
    /// features do not fit the first layer or the labels the last.
    pub fn check_batch(&self, x: Shape, y: Shape) -> (r: Result<Vec<Shape>, NetError>)
        requires
            self.wf(),
        ensures
            self.layout is None ==> r == Err::<Vec<Shape>, NetError>(
                NetError::NotInitialized,
            ),
            self.layout is Some ==> ({
                let w = self.layout->0.weights_spec();
                let ok = fits(w, x) && y == trace_of(w, x).last();
                &&& ok <==> r is Ok
                &&& r is Ok ==> r->Ok_0@ == w && r->Ok_0@ == gradients_of(trace_of(w, x))
                &&& r is Err ==> r->Err_0 == NetError::ShapeMismatch
            }),
    {
        match &self.layout {
            None => Err(NetError::NotInitialized),
            Some(l) => gradient_shapes(&l.weights, x, y),
        }
    }
}

impl Default for Blueprint {
    fn default() -> (r: Blueprint)
        ensures
            r.wf(),
            r.architecture.layer_seq() == Seq::<Layer>::empty(),
            r.epochs == DEFAULT_EPOCHS,
            r.batches == DEFAULT_BATCHES,
            r.layout is None,
    {
        Blueprint::new()
    }
}

/// Once a blueprint is initialized, a training step on a batch of any row
/// count, with features as wide as the first layer reads and labels as wide
/// as the last layer writes, passes every shape check: training such a
/// network on such data raises no error.
pub proof fn lemma_training_step_fits(net: Blueprint, rows: usize, x_cols: usize, y_cols: usize)
    requires
        net.wf(),
        net.layout is Some,
        x_cols == net.layout->0.layers_spec()@[0].input,
        y_cols == net.layout->0.layers_spec()@.last().size,
    ensures
        ({
            let w = net.layout->0.weights_spec();
            let x = Shape { rows, cols: x_cols };
            fits(w, x) && (Shape { rows, cols: y_cols }) == trace_of(w, x).last()
        }),
{
    crate::forward::lemma_forward_output_shape(net.layout->0.layers_spec(), Shape { rows, cols: x_cols });
}

/// Two snapshots of a blueprint's architecture, taken with no change in
/// between, are equal.
pub proof fn lemma_architecture_snapshots_agree(net: Blueprint, a: Architecture, b: Architecture)
    requires
        same_architecture(a, net.architecture),
        same_architecture(b, net.architecture),
    ensures
        same_architecture(a, b),
{
}

} // verus!
