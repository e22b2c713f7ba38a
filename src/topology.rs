use vstd::prelude::*;
use crate::shape::{Shape, column_spec};

verus! {

/// A layer topology is at least two layers, each of at least one neuron.
pub open spec fn valid_layers(layers: Seq<usize>) -> bool {
    &&& layers.len() >= 2
    &&& forall|i: int| 0 <= i < layers.len() ==> layers[i] > 0
}

/// The shape of the weight matrix between layer `i` and layer `i + 1`.
pub open spec fn weight_shape_spec(layers: Seq<usize>, i: int) -> Shape {
    Shape { rows: layers[i + 1], cols: layers[i] }
}

/// The shape of the bias vector of layer `i + 1`.
pub open spec fn bias_shape_spec(layers: Seq<usize>, i: int) -> Shape {
    column_spec(layers[i + 1])
}

/// The neuron count of each layer of a network, from input to output.
pub struct Topology {
    layers: Vec<usize>,
}

impl View for Topology {
    type V = Seq<usize>;

    closed spec fn view(&self) -> Seq<usize> {
        self.layers@
    }
}

impl Topology {
    pub open spec fn wf(&self) -> bool {
        valid_layers(self@)
    }

    /// Number of layer transitions, that is of weight matrices and bias vectors.
    pub open spec fn transitions_spec(&self) -> nat {
        (self@.len() - 1) as nat
    }

    /// Accepts `layers` if it is a valid topology.
    pub fn new(layers: Vec<usize>) -> (r: Option<Topology>)
        ensures
            r is Some <==> valid_layers(layers@),
            r matches Some(t) ==> t@ == layers@ && t.wf(),
    {
        if layers.len() < 2 {
            return None;
        }
        let mut i: usize = 0;
        while i < layers.len()
            invariant
                i <= layers.len(),
                forall|j: int| 0 <= j < i ==> layers@[j] > 0,
            decreases layers.len() - i,
        {
            if layers[i] == 0 {
                return None;
            }
            i = i + 1;
        }
        Some(Topology { layers })
    }

    /// The neuron count of each layer.
    pub fn layers(&self) -> (r: &Vec<usize>)
        ensures
            r@ == self@,
    {
        &self.layers
    }

    pub fn transitions(&self) -> (r: usize)
        requires
            self.wf(),
        ensures
            r == self.transitions_spec(),
    {
        self.layers.len() - 1
    }

    /// Size of the input layer.
    pub fn input_size(&self) -> (r: usize)
        requires
            self.wf(),
        ensures
            r == self@[0],
    {
        self.layers[0]
    }

    /// Size of the output layer.
    pub fn output_size(&self) -> (r: usize)
        requires
            self.wf(),
        ensures
            r == self@.last(),
    {
        self.layers[self.layers.len() - 1]
    }

    /// The shape of weight matrix `i`: (layers[i + 1] × layers[i]).
    pub fn weight_shape(&self, i: usize) -> (r: Shape)
        requires
            self.wf(),
            i < self.transitions_spec(),
        ensures
            r == weight_shape_spec(self@, i as int),
    {
        // Reading the length bounds it by usize::MAX, so that `i + 1` fits.
        let _count = self.layers.len();
        Shape { rows: self.layers[i + 1], cols: self.layers[i] }
    }

    /// The shape of bias vector `i`: (layers[i + 1] × 1).
    pub fn bias_shape(&self, i: usize) -> (r: Shape)
        requires
            self.wf(),
            i < self.transitions_spec(),
        ensures
            r == bias_shape_spec(self@, i as int),
    {
        // Reading the length bounds it by usize::MAX, so that `i + 1` fits.
        let _count = self.layers.len();
        Shape::column(self.layers[i + 1])
    }

    /// The shapes of the weight matrices that the topology calls for, in order.
    pub fn weight_shapes(&self) -> (r: Vec<Shape>)
        requires
            self.wf(),
        ensures
            r@.len() == self.transitions_spec(),
            forall|i: int| 0 <= i < r@.len() ==> r@[i] == weight_shape_spec(self@, i),
    {
        let n = self.transitions();
        let mut r: Vec<Shape> = Vec::new();
        let mut i: usize = 0;
        while i < n
            invariant
                self.wf(),
                n == self.transitions_spec(),
                i <= n,
                r@.len() == i,
                forall|j: int| 0 <= j < i ==> r@[j] == weight_shape_spec(self@, j),
            decreases n - i,
        {
            r.push(self.weight_shape(i));
            i = i + 1;
        }
        r
    }

    /// The shapes of the bias vectors that the topology calls for, in order.
    pub fn bias_shapes(&self) -> (r: Vec<Shape>)
        requires
            self.wf(),
        ensures
            r@.len() == self.transitions_spec(),
            forall|i: int| 0 <= i < r@.len() ==> r@[i] == bias_shape_spec(self@, i),
    {
        let n = self.transitions();
        let mut r: Vec<Shape> = Vec::new();
        let mut i: usize = 0;
        while i < n
            invariant
                self.wf(),
                n == self.transitions_spec(),
                i <= n,
                r@.len() == i,
                forall|j: int| 0 <= j < i ==> r@[j] == bias_shape_spec(self@, j),
            decreases n - i,
        {
            r.push(self.bias_shape(i));
            i = i + 1;
        }
        r
    }
}

} // verus!
