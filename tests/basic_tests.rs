use spitz::{Activation, Architecture, Blueprint, Layer, NetError, Shape};

#[test]
fn add_layer() {
    let mut network = Blueprint::new();
    network.input_layer(10);
    network.add_layer(50, Activation::Relu).unwrap();
    network.add_layer(40, Activation::Sigmoid).unwrap();

    let architecture = network.get_architecture();
    for layer in architecture.layers() {
        println!("{:?}", layer);
    }
    assert_eq!(
        architecture.layers(),
        &vec![
            Layer::new(10, 50, Activation::Relu),
            Layer::new(50, 40, Activation::Sigmoid),
        ]
    );
}

#[test]
fn init_weights() {
    let mut architecture = Architecture::new();
    architecture.input_layer(10);
    architecture.add_layer(40, Activation::Relu).unwrap();
    architecture.add_layer(5, Activation::Sigmoid).unwrap();
    let weights = architecture.freeze().unwrap().weight_shapes();

    assert_eq!(weights[0], Shape::new(10, 40));
    assert_eq!(weights[1], Shape::new(40, 5));
}

#[test]
fn set_epochs() {
    let mut network = Blueprint::new();

    network.set_epochs(25);
    assert_eq!(network.epochs, 25);
}

#[test]
fn set_batches() {
    let mut network = Blueprint::new();

    network.set_batches(25);
    assert_eq!(network.batches, 25);
}

#[test]
fn add_layer_needs_an_input_width() {
    let mut architecture = Architecture::new();
    assert_eq!(architecture.add_layer(3, Activation::Linear), Err(NetError::Configuration));
    assert!(architecture.layers().is_empty());
    architecture.input_layer(2);
    assert_eq!(architecture.add_layer(3, Activation::Linear), Ok(()));
    assert_eq!(architecture.layers()[0], Layer::new(2, 3, Activation::Linear));
}

#[test]
fn input_layer_after_a_layer_changes_nothing() {
    let mut architecture = Architecture::new();
    architecture.input_layer(4);
    architecture.input_layer(6);
    architecture.add_layer(3, Activation::Relu).unwrap();
    architecture.input_layer(9);
    assert_eq!(architecture.input_width(), Some(6));
    architecture.add_layer(2, Activation::Sigmoid).unwrap();
    assert_eq!(
        architecture.layers(),
        &vec![Layer::new(6, 3, Activation::Relu), Layer::new(3, 2, Activation::Sigmoid)]
    );
}

#[test]
fn freeze_refuses_empty_and_zero_wide_architectures() {
    let mut architecture = Architecture::default();
    assert!(matches!(architecture.freeze(), Err(NetError::Configuration)));
    architecture.input_layer(0);
    architecture.add_layer(3, Activation::Relu).unwrap();
    assert!(matches!(architecture.freeze(), Err(NetError::Configuration)));

    let mut other = Architecture::new();
    other.input_layer(2);
    other.add_layer(0, Activation::Relu).unwrap();
    assert!(matches!(other.freeze(), Err(NetError::Configuration)));
}

#[test]
fn weight_shapes_follow_the_layers() {
    let mut architecture = Architecture::new();
    architecture.input_layer(2);
    architecture.add_layer(4, Activation::Relu).unwrap();
    architecture.add_layer(5, Activation::Sigmoid).unwrap();
    architecture.add_layer(1, Activation::Sigmoid).unwrap();
    let frozen = architecture.freeze().unwrap();
    assert_eq!(frozen.layers(), architecture.layers());
    assert_eq!(
        frozen.weight_shapes(),
        vec![Shape::new(2, 4), Shape::new(4, 5), Shape::new(5, 1)]
    );
}

#[test]
fn architecture_snapshots_agree() {
    let mut network = Blueprint::default();
    network.input_layer(3);
    network.add_layer(2, Activation::Linear).unwrap();
    let first = network.get_architecture();
    let second = network.get_architecture();
    assert_eq!(first.layers(), second.layers());
    assert_eq!(first.input_width(), second.input_width());
    assert_eq!(first.layers().len(), 1);
}
