use vstd::prelude::*;

use crate::activation::Activation;
use crate::error::NetError;
use crate::shape::Shape;

verus! {

/// One layer: a matrix product from `input` to `size` columns, followed by
/// an elementwise `activation`.
#[derive(Clone, Copy, Debug, PartialEq, Eq, Structural)]
pub struct Layer {
    pub input: usize,
    pub size: usize,
    pub activation: Activation,
}

impl Layer {
    pub fn new(input: usize, size: usize, activation: Activation) -> (r: Layer)
        ensures
            r == (Layer { input, size, activation }),
    {
        Layer { input, size, activation }
    }
}

/// Each layer reads exactly as many columns as the layer before it writes.
pub open spec fn chained(layers: Seq<Layer>) -> bool {
    forall|i: int| 0 < i < layers.len() ==> #[trigger] layers[i].input == layers[i - 1].size
}

/// No layer has a zero width.
pub open spec fn non_degenerate(layers: Seq<Layer>) -> bool {
    forall|i: int| 0 <= i < layers.len() ==> #[trigger] layers[i].input > 0 && layers[i].size > 0
}

/// The shape of the weight matrix of each layer: `input` rows, `size` columns.
pub open spec fn weight_shapes_of(layers: Seq<Layer>) -> Seq<Shape> {
    layers.map_values(|l: Layer| Shape { rows: l.input, cols: l.size })
}

/// An architecture under construction: the layers appended so far, and
/// the input width declared for the first one.
///
/// Once a layer exists, its successors take their input width from the
/// last layer; declaring the input width then changes nothing.
#[derive(Clone, Debug)]
pub struct Architecture {
    layers: Vec<Layer>,
    input_layer_size: Option<usize>,
}

impl Architecture {
    /// The layers appended so far, in order.
    pub closed spec fn layer_seq(&self) -> Seq<Layer> {
        self.layers@
    }

    /// The declared input width of the first layer, if any.
    pub closed spec fn declared_input(&self) -> Option<usize> {
        self.input_layer_size
    }

    /// The layers chain, and the first one reads the declared input width.
    pub open spec fn wf(&self) -> bool {
        &&& chained(self.layer_seq())
        &&& self.layer_seq().len() > 0 ==> self.declared_input() == Some(self.layer_seq()[0].input)
    }

    /// The input width the next appended layer gets, if it can be told.
    pub open spec fn next_input(&self) -> Option<usize> {
        if self.layer_seq().len() > 0 {
            Some(self.layer_seq().last().size)
        } else {
            self.declared_input()
        }
    }

    /// An empty architecture with no declared input width.
    pub fn new() -> (r: Architecture)
        ensures
            r.wf(),
            r.layer_seq() == Seq::<Layer>::empty(),
            r.declared_input() is None,
    {
        Architecture { layers: Vec::new(), input_layer_size: None }
    }

    /// Appends a layer of `neurons` outputs; its input width is the last
    /// layer's output width, or the declared one for the first layer.
    pub fn add_layer(&mut self, neurons: usize, activation: Activation) -> (r: Result<(), NetError>)
        requires
            old(self).wf(),
        ensures
            final(self).wf(),
            final(self).declared_input() == old(self).declared_input(),
            r is Err <==> old(self).next_input() is None,
            r is Err ==> r == Err::<(), NetError>(NetError::Configuration)
                && final(self).layer_seq() == old(self).layer_seq(),
            r is Ok ==> final(self).layer_seq() == old(self).layer_seq().push(
                Layer { input: old(self).next_input()->0, size: neurons, activation },
            ),
    {
        let input: usize = match self.layers.last() {
            Some(l) => l.size,
            None => match self.input_layer_size {
                Some(n) => n,
                None => {
                    return Err(NetError::Configuration);
                },
            },
        };
        self.layers.push(Layer::new(input, neurons, activation));
        Ok(())
    }

    /// Declares the input width of the first layer. Once a layer exists
    /// this is a no-op.
    pub fn input_layer(&mut self, neurons: usize)
        requires
            old(self).wf(),
        ensures
            final(self).wf(),
            final(self).layer_seq() == old(self).layer_seq(),
            old(self).layer_seq().len() == 0 ==> final(self).declared_input() == Some(neurons),
            old(self).layer_seq().len() > 0 ==> final(self).declared_input()
                == old(self).declared_input(),
    {
        if self.layers.len() == 0 {
            self.input_layer_size = Some(neurons);
        }
    }

    /// The layers appended so far.
    pub fn layers(&self) -> (r: &Vec<Layer>)
        ensures
            r@ == self.layer_seq(),
    {
        &self.layers
    }

    /// The declared input width, if any.
    pub fn input_width(&self) -> (r: Option<usize>)
        ensures
            r == self.declared_input(),
    {
        self.input_layer_size
    }

    /// A copy of this architecture.
    pub fn snapshot(&self) -> (r: Architecture)
        ensures
            r.layer_seq() == self.layer_seq(),
            r.declared_input() == self.declared_input(),
    {
        Architecture { layers: self.layers.clone(), input_layer_size: self.input_layer_size }
    }

    /// Ends construction: succeeds when there is at least one layer and no
    /// layer has a zero width.
    pub fn freeze(&self) -> (r: Result<FrozenArchitecture, NetError>)
        requires
            self.wf(),
        ensures
            r is Ok <==> self.layer_seq().len() > 0 && non_degenerate(self.layer_seq()),
            r is Ok ==> r->Ok_0.wf() && r->Ok_0@ == self.layer_seq(),
            r is Err ==> r->Err_0 == NetError::Configuration,
    {
        if self.layers.len() == 0 {
            return Err(NetError::Configuration);
        }
        let mut i: usize = 0;
        while i < self.layers.len()
            invariant
                i <= self.layers@.len(),
                forall|j: int| 0 <= j < i ==> #[trigger] self.layers@[j].input > 0
                    && self.layers@[j].size > 0,
            decreases self.layers@.len() - i,
        {
            if self.layers[i].input == 0 || self.layers[i].size == 0 {
                return Err(NetError::Configuration);
            }
            i = i + 1;
        }
        Ok(FrozenArchitecture { layers: self.layers.clone() })
    }
}

impl Default for Architecture {
    fn default() -> (r: Architecture)
        ensures
            r.wf(),
            r.layer_seq() == Seq::<Layer>::empty(),
            r.declared_input() is None,
    {
        Architecture::new()
    }
}

/// A finished architecture: at least one layer, every layer of non-zero
/// width, each reading what the previous one writes.
#[derive(Clone, Debug)]
pub struct FrozenArchitecture {
    layers: Vec<Layer>,
}

impl View for FrozenArchitecture {
    type V = Seq<Layer>;

    closed spec fn view(&self) -> Seq<Layer> {
        self.layers@
    }
}

impl FrozenArchitecture {
    /// At least one layer, chained, none of zero width.
    pub open spec fn wf(&self) -> bool {
        &&& self@.len() > 0
        &&& chained(self@)
        &&& non_degenerate(self@)
    }

    /// The layers, in order.
    pub fn layers(&self) -> (r: &Vec<Layer>)
        ensures
            r@ == self@,
    {
        &self.layers
    }

    /// The shape of each layer's weight matrix, in layer order.
    pub fn weight_shapes(&self) -> (r: Vec<Shape>)
        ensures
            r@ == weight_shapes_of(self@),
    {
        let mut r: Vec<Shape> = Vec::new();
        let mut i: usize = 0;
        while i < self.layers.len()
            invariant
                i <= self.layers@.len(),
                r@ == weight_shapes_of(self.layers@.subrange(0, i as int)),
            decreases self.layers@.len() - i,
        {
            let l = self.layers[i];
            r.push(Shape::new(l.input, l.size));
            proof {
                assert(self.layers@.subrange(0, i + 1) == self.layers@.subrange(0, i as int).push(l));
            }
            i = i + 1;
        }
        proof {
            assert(self.layers@.subrange(0, self.layers@.len() as int) == self.layers@);
        }
        r
    }
}

/// There is one weight matrix per layer; the matrix of layer `i` has as
/// many rows as the layer reads and as many columns as it writes; and in a
/// finished architecture each matrix has as many columns as the next one
/// has rows, so the products of a forward pass fit.
pub proof fn lemma_one_weight_matrix_per_layer(arch: FrozenArchitecture)
    requires
        arch.wf(),
    ensures
        weight_shapes_of(arch@).len() == arch@.len(),
        forall|i: int|
            0 <= i < arch@.len() ==> #[trigger] weight_shapes_of(arch@)[i] == (Shape {
                rows: arch@[i].input,
                cols: arch@[i].size,
            }),
        forall|i: int|
            0 < i < arch@.len() ==> #[trigger] weight_shapes_of(arch@)[i].rows == weight_shapes_of(
                arch@,
            )[i - 1].cols,
{
}

} // verus!
