use reural_network::Dimension;
use reural_network::Matrix;
use reural_network::NeuralNetworkBuilder;

/// Test creating a new neural network builder.
#[test]
fn new() {
    let input_nodes = Dimension::new(5).unwrap();
    let builder = NeuralNetworkBuilder::new(input_nodes);

    assert_eq!(builder.input_nodes, input_nodes);
    assert!(builder.hidden_layer_nodes.is_empty())
}

/// Test adding hidden layers to the neural network.
#[test]
fn add_hidden_layer() {
    let input_nodes = Dimension::new(5).unwrap();
    let mut builder = NeuralNetworkBuilder::new(input_nodes);

    let nodes_1 = Dimension::new(7).unwrap();
    builder.add_hidden_layer(nodes_1);
    assert_eq!(builder.input_nodes, input_nodes);
    assert_eq!(builder.hidden_layer_nodes.as_slice(), &[nodes_1]);

    let nodes_2 = Dimension::new(3).unwrap();
    builder.add_hidden_layer(nodes_2);
    assert_eq!(builder.input_nodes, input_nodes);
    assert_eq!(builder.hidden_layer_nodes.as_slice(), &[nodes_1, nodes_2]);
}

/// Test that the layer dimension pairs chain the accumulated sizes: each
/// layer's output size is the next layer's input size.
#[test]
fn layer_dimension_pairs_chain_sizes() {
    let input_nodes = Dimension::new(5).unwrap();
    let nodes_1 = Dimension::new(7).unwrap();
    let nodes_2 = Dimension::new(3).unwrap();
    let output_nodes = Dimension::new(2).unwrap();

    let mut builder = NeuralNetworkBuilder::new(input_nodes);
    builder.add_hidden_layer(nodes_1);
    builder.add_hidden_layer(nodes_2);
    let pairs: Vec<(Dimension, Dimension)> = builder.layer_dimension_pairs(output_nodes);
    assert_eq!(pairs.len(), 3);

    // Input layer.
    assert_eq!(pairs[0].0.get(), input_nodes.get());
    assert_eq!(pairs[0].1.get(), nodes_1.get());

    // Hidden layer.
    assert_eq!(pairs[1].0.get(), nodes_1.get());
    assert_eq!(pairs[1].1.get(), nodes_2.get());

    // Output layer.
    assert_eq!(pairs[2].0.get(), nodes_2.get());
    assert_eq!(pairs[2].1.get(), output_nodes.get());
}

/// Test that a builder without hidden layers still produces one layer.
#[test]
fn layer_dimension_pairs_without_hidden_layers() {
    let builder = NeuralNetworkBuilder::new(Dimension::new(4).unwrap());
    let pairs: Vec<(Dimension, Dimension)> = builder.layer_dimension_pairs(Dimension::new(2).unwrap());

    assert_eq!(pairs.len(), 1);
    assert_eq!(pairs[0].0.get(), 4);
    assert_eq!(pairs[0].1.get(), 2);
}

/// A matrix with every element independently sampled uniformly from the
/// closed interval [0, 1].
fn random_matrix(rows: Dimension, columns: Dimension) -> Matrix<f64> {
    let mut data: Vec<f64> = Vec::new();
    for _ in 0..rows.get() * columns.get() {
        data.push(rand::random_range(0.0..=1.0));
    }
    Matrix::from_slice(rows, columns, &data).unwrap()
}

/// Test a full forward pass through a network of sigmoid layers built from
/// the builder's layer sizes: three input nodes, one hidden layer of seven
/// nodes, and ten output nodes. The prediction must be a 10x1 matrix with
/// every element in the sigmoid range [0, 1].
#[test]
fn network_predict_sigmoid_range() {
    let one = Dimension::new(1).unwrap();
    let mut builder = NeuralNetworkBuilder::new(Dimension::new(3).unwrap());
    builder.add_hidden_layer(Dimension::new(7).unwrap());
    let pairs: Vec<(Dimension, Dimension)> = builder.layer_dimension_pairs(Dimension::new(10).unwrap());

    // One layer per pair: weights are `output x input`, the bias is
    // `output x 1`, both with random elements in [0, 1].
    let mut layers: Vec<(Matrix<f64>, Matrix<f64>)> = Vec::new();
    for (input_nodes, output_nodes) in pairs {
        let weights = random_matrix(output_nodes, input_nodes);
        let bias = random_matrix(output_nodes, one);
        layers.push((weights, bias));
    }

    // Feed the input through every layer: an affine transform followed by
    // the logistic sigmoid.
    let mut output: Matrix<f64> =
        Matrix::from_slice(Dimension::new(3).unwrap(), one, &[1.0, 1.1, 1.2]).unwrap();
    for (weights, bias) in &layers {
        let mut next: Matrix<f64> = weights.matrix_mul(&output).unwrap();
        next = next.add(bias).unwrap();
        next.map(|element, _row, _column| 1.0 / (1.0 + (-element).exp()));
        output = next;
    }

    assert_eq!(output.get_rows(), 10);
    assert_eq!(output.get_columns(), 1);
    for element in output.as_slice() {
        assert!(*element >= 0.0);
        assert!(*element <= 1.0);
    }
}
