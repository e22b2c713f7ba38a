use neural_net::{backward_shapes, check_parameters, forward_shapes, Error, Shape, Topology};

fn topo(layers: Vec<usize>) -> Topology {
    Topology::new(layers).unwrap()
}

fn sh(rows: usize, cols: usize) -> Shape {
    Shape { rows, cols }
}

#[test]
fn topology_accepts_valid_layers() {
    let t = topo(vec![2, 3, 1]);
    assert_eq!(t.layers(), &vec![2, 3, 1]);
    assert_eq!(t.transitions(), 2);
    assert_eq!(t.input_size(), 2);
    assert_eq!(t.output_size(), 1);
    assert_eq!(t.weight_shape(0), sh(3, 2));
    assert_eq!(t.weight_shape(1), sh(1, 3));
    assert_eq!(t.bias_shape(0), sh(3, 1));
    assert_eq!(t.weight_shapes(), vec![sh(3, 2), sh(1, 3)]);
    assert_eq!(t.bias_shapes(), vec![sh(3, 1), sh(1, 1)]);
}

#[test]
fn topology_rejects_short_or_empty_layers() {
    assert!(Topology::new(vec![]).is_none());
    assert!(Topology::new(vec![4]).is_none());
    assert!(Topology::new(vec![2, 0, 1]).is_none());
}

#[test]
fn shape_rules() {
    assert_eq!(Shape::column(4), sh(4, 1));
    assert_eq!(sh(2, 5).transposed(), sh(5, 2));
    assert_eq!(sh(3, 2).product(sh(2, 1)), Ok(sh(3, 1)));
    assert_eq!(sh(3, 2).product(sh(3, 1)), Err(Error::MatrixError(sh(3, 2), sh(3, 1))));
    assert_eq!(sh(3, 1).combine(sh(3, 1)), Ok(sh(3, 1)));
    assert_eq!(sh(3, 1).combine(sh(1, 3)), Err(Error::MatrixError(sh(3, 1), sh(1, 3))));
}

#[test]
fn forward_rejects_wrong_input_length() {
    let t = topo(vec![2, 3, 1]);
    let (w, b) = (t.weight_shapes(), t.bias_shapes());
    for n in [0usize, 1, 3, 10] {
        assert_eq!(forward_shapes(&t, &w, &b, n), Err(Error::InvalidNumberOfInputs));
    }
}

#[test]
fn forward_output_has_last_layer_size() {
    let t = topo(vec![2, 3, 1]);
    let (w, b) = (t.weight_shapes(), t.bias_shapes());
    let cache = forward_shapes(&t, &w, &b, 2).unwrap();
    assert_eq!(cache, vec![sh(2, 1), sh(3, 1), sh(1, 1)]);
    assert_eq!(cache.last().unwrap().rows, t.output_size());
}

#[test]
fn forward_surfaces_inconsistent_weight() {
    let t = topo(vec![2, 3, 1]);
    let b = t.bias_shapes();
    let w = vec![sh(3, 2), sh(1, 4)];
    assert_eq!(forward_shapes(&t, &w, &b, 2), Err(Error::MatrixError(sh(1, 4), sh(1, 3))));
}

#[test]
fn forward_surfaces_inconsistent_bias() {
    let t = topo(vec![2, 3, 1]);
    let w = t.weight_shapes();
    let b = vec![sh(2, 1), sh(1, 1)];
    assert_eq!(forward_shapes(&t, &w, &b, 2), Err(Error::MatrixError(sh(2, 1), sh(3, 1))));
}

#[test]
fn forward_is_deterministic() {
    let t = topo(vec![4, 5, 2, 3]);
    let (w, b) = (t.weight_shapes(), t.bias_shapes());
    let first = forward_shapes(&t, &w, &b, 4);
    let second = forward_shapes(&t, &w, &b, 4);
    assert_eq!(first, second);
    assert_eq!(first.unwrap().len(), 4);
}

#[test]
fn backward_rejects_wrong_target_length() {
    let t = topo(vec![2, 3, 1]);
    let (w, b) = (t.weight_shapes(), t.bias_shapes());
    let cache = forward_shapes(&t, &w, &b, 2).unwrap();
    for n in [0usize, 2, 3] {
        assert_eq!(backward_shapes(&t, &w, &b, &cache, 1, n), Err(Error::InvalidTargetLength));
    }
}

#[test]
fn backward_after_forward_succeeds() {
    let t = topo(vec![2, 3, 1]);
    let (w, b) = (t.weight_shapes(), t.bias_shapes());
    let cache = forward_shapes(&t, &w, &b, 2).unwrap();
    assert_eq!(backward_shapes(&t, &w, &b, &cache, 1, 1), Ok(()));
    assert_eq!(backward_shapes(&t, &w, &b, &cache, 1, 1), Ok(()));
}

#[test]
fn backward_rejects_output_of_other_length() {
    let t = topo(vec![2, 3, 1]);
    let (w, b) = (t.weight_shapes(), t.bias_shapes());
    let cache = forward_shapes(&t, &w, &b, 2).unwrap();
    assert_eq!(
        backward_shapes(&t, &w, &b, &cache, 2, 1),
        Err(Error::MatrixError(sh(1, 1), sh(2, 1)))
    );
}

#[test]
fn backward_surfaces_inconsistent_cache() {
    let t = topo(vec![2, 3, 1]);
    let (w, b) = (t.weight_shapes(), t.bias_shapes());
    let cache = vec![sh(2, 1), sh(4, 1), sh(1, 1)];
    assert_eq!(
        backward_shapes(&t, &w, &b, &cache, 1, 1),
        Err(Error::MatrixError(sh(1, 3), sh(1, 4)))
    );
}

#[test]
fn forward_rejects_parameters_that_chain_but_differ_from_topology() {
    let t = topo(vec![2, 3, 1]);
    let w = vec![sh(4, 2), sh(2, 4)];
    let b = vec![sh(4, 1), sh(2, 1)];
    assert_eq!(forward_shapes(&t, &w, &b, 2), Err(Error::MatrixError(sh(4, 2), sh(3, 2))));
}

#[test]
fn backward_rejects_parameters_that_chain_but_differ_from_topology() {
    let t = topo(vec![2, 3, 1]);
    let w = vec![sh(4, 2), sh(1, 4)];
    let b = vec![sh(4, 1), sh(1, 1)];
    let cache = vec![sh(2, 1), sh(4, 1), sh(1, 1)];
    assert_eq!(backward_shapes(&t, &w, &b, &cache, 1, 1), Err(Error::MatrixError(sh(4, 2), sh(3, 2))));
}

#[test]
fn check_parameters_reports_first_misshapen() {
    let t = topo(vec![2, 3, 1]);
    assert_eq!(check_parameters(&t, &t.weight_shapes(), &t.bias_shapes()), Ok(()));
    let w = t.weight_shapes();
    let b = vec![sh(3, 1), sh(2, 1)];
    assert_eq!(check_parameters(&t, &w, &b), Err(Error::MatrixError(sh(2, 1), sh(1, 1))));
}
