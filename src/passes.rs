use vstd::prelude::*;
use crate::error::Error;
use crate::shape::{Shape, column_spec, product_spec, combine_spec};
use crate::topology::{Topology, weight_shape_spec, bias_shape_spec};

verus! {

/// One layer transition of the forward pass, on shapes: `weight × current`,
/// then `+ bias` (the activation map keeps the shape).
pub open spec fn layer_step_spec(w: Shape, b: Shape, cur: Shape) -> Result<Shape, Error> {
    match product_spec(w, cur) {
        Ok(p) => combine_spec(p, b),
        Err(e) => Err(e),
    }
}

/// The activation cache after the first `k` transitions of a forward pass
/// that starts from a value of shape `x`, or the first error met.
pub open spec fn forward_prefix(ws: Seq<Shape>, bs: Seq<Shape>, x: Shape, k: nat) -> Result<Seq<Shape>, Error>
    decreases k,
{
    if k == 0 {
        Ok(seq![x])
    } else {
        match forward_prefix(ws, bs, x, (k - 1) as nat) {
            Ok(c) => match layer_step_spec(ws[k - 1], bs[k - 1], c.last()) {
                Ok(s) => Ok(c.push(s)),
                Err(e) => Err(e),
            },
            Err(e) => Err(e),
        }
    }
}

/// The check of the parameters from transition `i` on against the shapes
/// that the topology calls for: the first weight or bias of another shape
/// is reported with the shape it should have.
pub open spec fn params_from(layers: Seq<usize>, ws: Seq<Shape>, bs: Seq<Shape>, i: nat) -> Result<(), Error>
    decreases ws.len() - i,
{
    if i >= ws.len() {
        Ok(())
    } else if ws[i as int] != weight_shape_spec(layers, i as int) {
        Err(Error::MatrixError(ws[i as int], weight_shape_spec(layers, i as int)))
    } else if bs[i as int] != bias_shape_spec(layers, i as int) {
        Err(Error::MatrixError(bs[i as int], bias_shape_spec(layers, i as int)))
    } else {
        params_from(layers, ws, bs, i + 1)
    }
}

/// Whether every weight and bias has the shape that the topology calls for,
/// or the first that does not.
pub open spec fn params_spec(layers: Seq<usize>, ws: Seq<Shape>, bs: Seq<Shape>) -> Result<(), Error> {
    params_from(layers, ws, bs, 0)
}

/// The forward pass on shapes: the cache of one column vector per layer,
/// from an input of `n` values, or the error that the pass fails with.
pub open spec fn forward_spec(layers: Seq<usize>, ws: Seq<Shape>, bs: Seq<Shape>, n: usize) -> Result<Seq<Shape>, Error> {
    if n != layers[0] {
        Err(Error::InvalidNumberOfInputs)
    } else {
        match params_spec(layers, ws, bs) {
            Err(e) => Err(e),
            Ok(_) => forward_prefix(ws, bs, column_spec(n), ws.len()),
        }
    }
}

/// The backward pass on shapes from transition `k - 1` down to the first,
/// with gradient shape `g` and error shape `e` on entry.
pub open spec fn backward_from(ws: Seq<Shape>, bs: Seq<Shape>, cache: Seq<Shape>, k: nat, g: Shape, e: Shape) -> Result<(), Error>
    decreases k,
{
    if k == 0 {
        Ok(())
    } else {
        let i = k - 1;
        match combine_spec(g, e) {
            Err(x) => Err(x),
            Ok(g2) => match product_spec(g2, cache[i].transposed_spec()) {
                Err(x) => Err(x),
                Ok(dw) => match combine_spec(ws[i], dw) {
                    Err(x) => Err(x),
                    Ok(_) => match combine_spec(bs[i], g2) {
                        Err(x) => Err(x),
                        Ok(_) => match product_spec(ws[i].transposed_spec(), e) {
                            Err(x) => Err(x),
                            Ok(e2) => backward_from(ws, bs, cache, i as nat, cache[i], e2),
                        },
                    },
                },
            },
        }
    }
}

/// The backward pass on shapes, for an output of `output_len` values, a
/// target of `target_len` values and the cache of the preceding forward pass.
pub open spec fn backward_spec(
    layers: Seq<usize>,
    ws: Seq<Shape>,
    bs: Seq<Shape>,
    cache: Seq<Shape>,
    output_len: usize,
    target_len: usize,
) -> Result<(), Error> {
    if target_len != layers.last() {
        Err(Error::InvalidTargetLength)
    } else if let Err(x) = params_spec(layers, ws, bs) {
        Err(x)
    } else {
        match combine_spec(column_spec(target_len), column_spec(output_len)) {
            Err(x) => Err(x),
            Ok(e) => backward_from(ws, bs, cache, ws.len(), column_spec(output_len), e),
        }
    }
}

/// Once a prefix of the forward pass has failed, every longer one fails the same way.
proof fn lemma_prefix_error_stays(ws: Seq<Shape>, bs: Seq<Shape>, x: Shape, k: nat, m: nat, e: Error)
    requires
        k <= m,
        forward_prefix(ws, bs, x, k) == Err::<Seq<Shape>, Error>(e),
    ensures
        forward_prefix(ws, bs, x, m) == Err::<Seq<Shape>, Error>(e),
    decreases m - k,
{
    if k < m {
        lemma_prefix_error_stays(ws, bs, x, k, (m - 1) as nat, e);
    }
}

/// Checks every weight and bias against the shape that the topology calls
/// for, and reports the first that differs.
pub fn check_parameters(topology: &Topology, weights: &Vec<Shape>, biases: &Vec<Shape>) -> (r: Result<(), Error>)
    requires
        topology.wf(),
        weights@.len() == topology.transitions_spec(),
        biases@.len() == weights@.len(),
    ensures
        r == params_spec(topology@, weights@, biases@),
{
    let mut i: usize = 0;
    while i < weights.len()
        invariant
            topology.wf(),
            weights@.len() == topology.transitions_spec(),
            biases@.len() == weights@.len(),
            i <= weights@.len(),
            params_spec(topology@, weights@, biases@) == params_from(topology@, weights@, biases@, i as nat),
        decreases weights@.len() - i,
    {
        let w = topology.weight_shape(i);
        if weights[i] != w {
            return Err(Error::MatrixError(weights[i], w));
        }
        let b = topology.bias_shape(i);
        if biases[i] != b {
            return Err(Error::MatrixError(biases[i], b));
        }
        i = i + 1;
    }
    Ok(())
}

/// The shapes of the activation cache that a forward pass over parameters of
/// the given shapes produces from an input of `input_len` values.
pub fn forward_shapes(topology: &Topology, weights: &Vec<Shape>, biases: &Vec<Shape>, input_len: usize) -> (r: Result<Vec<Shape>, Error>)
    requires
        topology.wf(),
        weights@.len() == topology.transitions_spec(),
        biases@.len() == weights@.len(),
    ensures
        r matches Ok(c) ==> forward_spec(topology@, weights@, biases@, input_len) == Ok::<Seq<Shape>, Error>(c@),
        r matches Err(e) ==> forward_spec(topology@, weights@, biases@, input_len) == Err::<Seq<Shape>, Error>(e),
{
    if input_len != topology.input_size() {
        return Err(Error::InvalidNumberOfInputs);
    }
    if let Err(x) = check_parameters(topology, weights, biases) {
        return Err(x);
    }
    let ghost x = column_spec(input_len);
    let mut current = Shape::column(input_len);
    let mut cache: Vec<Shape> = vec![current];
    assert(cache@ =~= seq![x]);
    let mut i: usize = 0;
    while i < weights.len()
        invariant
            i <= weights@.len(),
            biases@.len() == weights@.len(),
            topology.wf(),
            input_len == topology@[0],
            params_spec(topology@, weights@, biases@) is Ok,
            x == column_spec(input_len),
            forward_prefix(weights@, biases@, x, i as nat) == Ok::<Seq<Shape>, Error>(cache@),
            current == cache@.last(),
        decreases weights@.len() - i,
    {
        let next = match weights[i].product(current) {
            Ok(p) => match p.combine(biases[i]) {
                Ok(s) => s,
                Err(e) => {
                    proof {
                        assert(forward_prefix(weights@, biases@, x, (i + 1) as nat) == Err::<Seq<Shape>, Error>(e));
                        lemma_prefix_error_stays(weights@, biases@, x, (i + 1) as nat, weights@.len(), e);
                    }
                    return Err(e);
                },
            },
            Err(e) => {
                proof {
                    assert(forward_prefix(weights@, biases@, x, (i + 1) as nat) == Err::<Seq<Shape>, Error>(e));
                    lemma_prefix_error_stays(weights@, biases@, x, (i + 1) as nat, weights@.len(), e);
                }
                return Err(e);
            },
        };
        cache.push(next);
        current = next;
        i = i + 1;
    }
    Ok(cache)
}

/// Whether a backward pass over parameters of the given shapes, with the
/// cache of the preceding forward pass, succeeds, or the error it fails with.
/// Parameters whose shapes differ from the topology's are rejected first.
pub fn backward_shapes(
    topology: &Topology,
    weights: &Vec<Shape>,
    biases: &Vec<Shape>,
    cache: &Vec<Shape>,
    output_len: usize,
    target_len: usize,
) -> (r: Result<(), Error>)
    requires
        topology.wf(),
        weights@.len() == topology.transitions_spec(),
        biases@.len() == weights@.len(),
        cache@.len() == weights@.len() + 1,
    ensures
        r == backward_spec(topology@, weights@, biases@, cache@, output_len, target_len),
{
    if target_len != topology.output_size() {
        return Err(Error::InvalidTargetLength);
    }
    if let Err(x) = check_parameters(topology, weights, biases) {
        return Err(x);
    }
    let parsed = Shape::column(output_len);
    let mut errors = match Shape::column(target_len).combine(parsed) {
        Ok(e) => e,
        Err(x) => return Err(x),
    };
    let mut gradients = parsed;
    let mut i: usize = weights.len();
    while i > 0
        invariant
            i <= weights@.len(),
            biases@.len() == weights@.len(),
            cache@.len() == weights@.len() + 1,
            backward_spec(topology@, weights@, biases@, cache@, output_len, target_len)
                == backward_from(weights@, biases@, cache@, i as nat, gradients, errors),
        decreases i,
    {
        let k = i - 1;
        let g = match gradients.combine(errors) {
            Ok(g) => g,
            Err(x) => return Err(x),
        };
        let dw = match g.product(cache[k].transposed()) {
            Ok(d) => d,
            Err(x) => return Err(x),
        };
        if let Err(x) = weights[k].combine(dw) {
            return Err(x);
        }
        if let Err(x) = biases[k].combine(g) {
            return Err(x);
        }
        errors = match weights[k].transposed().product(errors) {
            Ok(e) => e,
            Err(x) => return Err(x),
        };
        gradients = cache[k];
        i = k;
    }
    Ok(())
}

} // verus!
