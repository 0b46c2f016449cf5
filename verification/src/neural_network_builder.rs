//! Definition and implementation of the builder for creating neural
//! networks.
//!
//! The builder accumulates the sizes of the layers a network will consist
//! of: the number of input nodes, the sizes of the hidden layers in order,
//! and finally the size of the output layer. From these it computes the
//! input and output size of every layer, where the output size of each layer
//! equals the input size of the next one. The floating-point layers
//! themselves are constructed by the surrounding application from these size
//! pairs.

use vstd::prelude::*;

use crate::dimension::Dimension;

verus! {

/// A builder for creating neural networks.
#[derive(Debug)]
pub struct NeuralNetworkBuilder {
    /// The number of input nodes of the neural network that will be built.
    pub input_nodes: Dimension,
    /// For each hidden layer in the neural network, the number of its nodes,
    /// in the order in which the layers will be part of the network.
    pub hidden_layer_nodes: Vec<Dimension>,
}

impl NeuralNetworkBuilder {
    /// The sizes of all layers of the network that will be built, once the
    /// given number of output nodes is added: the number of input nodes,
    /// then the hidden layer sizes in order, then the number of output
    /// nodes.
    pub open spec fn spec_layer_sizes(&self, output_nodes: Dimension) -> Seq<Dimension> {
        seq![self.input_nodes] + self.hidden_layer_nodes@ + seq![output_nodes]
    }

    /// Start building a new neural network with the given number of input
    /// nodes and no hidden layers.
    pub fn new(input_nodes: Dimension) -> (builder: NeuralNetworkBuilder)
        ensures
            builder.input_nodes == input_nodes,
            builder.hidden_layer_nodes@ == Seq::<Dimension>::empty(),
    {
        NeuralNetworkBuilder { input_nodes, hidden_layer_nodes: Vec::new() }
    }

    /// Add a hidden layer with the given number of `nodes` to the neural
    /// network.
    ///
    /// The order in which the hidden layers are inserted will be their order
    /// in the neural network once it is built.
    pub fn add_hidden_layer(&mut self, nodes: Dimension)
        ensures
            final(self).input_nodes == old(self).input_nodes,
            final(self).hidden_layer_nodes@ == old(self).hidden_layer_nodes@.push(nodes),
    {
        self.hidden_layer_nodes.push(nodes);
    }

    /// The input and output sizes of every layer of the network that ends in
    /// an output layer with the given number of nodes.
    ///
    /// There is one pair per layer: the first component is the layer's
    /// number of input nodes and the second its number of output nodes, and
    /// consecutive pairs agree on their shared size, so a network built from
    /// these layers feeds each layer's output into the next layer's input.
    /// At least one pair is always produced.
    pub fn layer_dimension_pairs(&self, output_nodes: Dimension) -> (pairs: Vec<
        (Dimension, Dimension),
    >)
        ensures
            pairs@.len() == self.hidden_layer_nodes@.len() + 1,
            forall|i: int|
                0 <= i < pairs@.len() ==> (#[trigger] pairs@[i]).0 == self.spec_layer_sizes(
                    output_nodes,
                )[i] && pairs@[i].1 == self.spec_layer_sizes(output_nodes)[i + 1],
    {
        // Collect the sizes of all layers, so that consecutive entries can
        // be paired up: the sizes [1, 4, 2, 7] result in the pairs
        // [(1, 4), (4, 2), (2, 7)].
        let mut layer_nodes: Vec<Dimension> = Vec::new();
        layer_nodes.push(self.input_nodes);
        let mut index: usize = 0;
        while index < self.hidden_layer_nodes.len()
            invariant
                index <= self.hidden_layer_nodes@.len(),
                layer_nodes@.len() == index + 1,
                layer_nodes@[0] == self.input_nodes,
                forall|i: int|
                    1 <= i < index + 1 ==> #[trigger] layer_nodes@[i]
                        == self.hidden_layer_nodes@[i - 1],
            decreases self.hidden_layer_nodes@.len() - index,
        {
            layer_nodes.push(self.hidden_layer_nodes[index]);
            index += 1;
        }
        layer_nodes.push(output_nodes);

        proof {
            assert(layer_nodes@ =~= self.spec_layer_sizes(output_nodes));
        }

        let mut pairs: Vec<(Dimension, Dimension)> = Vec::new();
        let total: usize = layer_nodes.len();
        let mut pair_index: usize = 0;
        while pair_index + 1 < total
            invariant
                layer_nodes@ == self.spec_layer_sizes(output_nodes),
                layer_nodes@.len() == self.hidden_layer_nodes@.len() + 2,
                total == layer_nodes@.len(),
                pair_index + 1 <= total,
                pairs@.len() == pair_index,
                forall|i: int|
                    0 <= i < pair_index ==> (#[trigger] pairs@[i]).0 == layer_nodes@[i]
                        && pairs@[i].1 == layer_nodes@[i + 1],
            decreases total - pair_index,
        {
            pairs.push((layer_nodes[pair_index], layer_nodes[pair_index + 1]));
            pair_index += 1;
        }

        pairs
    }
}

} // verus!
