use vstd::prelude::*;
use crate::error::Error;
use crate::passes::{forward_prefix, forward_spec, backward_from, backward_spec, layer_step_spec, params_from, params_spec};
use crate::shape::{Shape, column_spec};
use crate::topology::{valid_layers, weight_shape_spec, bias_shape_spec};

verus! {

/// The number of rows of the value fed into transition `i` of a forward
/// pass over an input of `n` values.
pub open spec fn fed_rows(ws: Seq<Shape>, n: usize, i: int) -> usize {
    if i == 0 {
        n
    } else {
        ws[i - 1].rows
    }
}

/// The first `k` weight and bias shapes fit one another and an input of
/// `n` values: each weight takes what the previous transition produced, and
/// each bias matches its weight's output.
pub open spec fn chain_fits(ws: Seq<Shape>, bs: Seq<Shape>, n: usize, k: nat) -> bool {
    forall|i: int|
        0 <= i < k ==> #[trigger] ws[i].cols == fed_rows(ws, n, i) && bs[i] == column_spec(ws[i].rows)
}

/// Parameter shapes are those that a topology calls for.
pub open spec fn shapes_match(layers: Seq<usize>, ws: Seq<Shape>, bs: Seq<Shape>) -> bool {
    &&& ws.len() == layers.len() - 1
    &&& bs.len() == ws.len()
    &&& forall|i: int| 0 <= i < ws.len() ==> ws[i] == weight_shape_spec(layers, i)
    &&& forall|i: int| 0 <= i < bs.len() ==> bs[i] == bias_shape_spec(layers, i)
}

/// A forward pass over `k` transitions succeeds exactly when the shapes
/// chain; it then holds one column vector per layer reached, the last one
/// as tall as the last weight's output, and otherwise it fails with a
/// matrix shape error.
pub proof fn lemma_forward_prefix_chain(ws: Seq<Shape>, bs: Seq<Shape>, n: usize, k: nat)
    requires
        k <= ws.len(),
        k <= bs.len(),
    ensures
        forward_prefix(ws, bs, column_spec(n), k) is Ok <==> chain_fits(ws, bs, n, k),
        forward_prefix(ws, bs, column_spec(n), k) matches Ok(c) ==> c.len() == k + 1 && c.last()
            == column_spec(fed_rows(ws, n, k as int)),
        forward_prefix(ws, bs, column_spec(n), k) matches Err(e) ==> e is MatrixError,
    decreases k,
{
    if k > 0 {
        let j = (k - 1) as nat;
        lemma_forward_prefix_chain(ws, bs, n, j);
        let x = column_spec(n);
        if chain_fits(ws, bs, n, k) {
            assert(chain_fits(ws, bs, n, j));
            assert(ws[j as int].cols == fed_rows(ws, n, j as int));
        } else {
            if chain_fits(ws, bs, n, j) {
                let i = choose|i: int|
                    0 <= i < k && !(#[trigger] ws[i].cols == fed_rows(ws, n, i) && bs[i] == column_spec(
                        ws[i].rows,
                    ));
                assert(i == j);
            }
        }
    }
}

/// A forward pass rejects every input whose length is not the first layer's size.
pub proof fn lemma_forward_rejects_input_length(layers: Seq<usize>, ws: Seq<Shape>, bs: Seq<Shape>, n: usize)
    requires
        layers.len() >= 1,
        n != layers[0],
    ensures
        forward_spec(layers, ws, bs, n) == Err::<Seq<Shape>, Error>(Error::InvalidNumberOfInputs),
{
}

/// Over parameters shaped as the topology calls for, a forward pass on an
/// input of the first layer's size succeeds, its cache holds one column per
/// layer, and its output is as long as the last layer.
pub proof fn lemma_forward_output_size(layers: Seq<usize>, ws: Seq<Shape>, bs: Seq<Shape>, n: usize)
    requires
        valid_layers(layers),
        shapes_match(layers, ws, bs),
        n == layers[0],
    ensures
        forward_spec(layers, ws, bs, n) matches Ok(c) && c.len() == layers.len() && c.last()
            == column_spec(layers.last()),
{
    assert forall|i: int| 0 <= i < ws.len() implies #[trigger] ws[i].cols == fed_rows(ws, n, i) && bs[i]
        == column_spec(ws[i].rows) by {
        assert(ws[i] == weight_shape_spec(layers, i));
        if i > 0 {
            assert(ws[i - 1] == weight_shape_spec(layers, i - 1));
        }
    }
    lemma_params_from(layers, ws, bs, 0);
    lemma_forward_prefix_chain(ws, bs, n, ws.len());
    assert(ws[ws.len() - 1] == weight_shape_spec(layers, ws.len() - 1));
}

/// The parameter check from transition `i` on passes exactly when every
/// later weight and bias has the shape that the topology calls for, and
/// otherwise reports a matrix shape error.
proof fn lemma_params_from(layers: Seq<usize>, ws: Seq<Shape>, bs: Seq<Shape>, i: nat)
    requires
        bs.len() == ws.len(),
        i <= ws.len(),
    ensures
        params_from(layers, ws, bs, i) is Ok <==> forall|j: int|
            i <= j < ws.len() ==> #[trigger] ws[j] == weight_shape_spec(layers, j) && bs[j] == bias_shape_spec(layers, j),
        params_from(layers, ws, bs, i) matches Err(e) ==> e is MatrixError,
    decreases ws.len() - i,
{
    if i < ws.len() {
        lemma_params_from(layers, ws, bs, i + 1);
    }
}

/// With input of the first layer's size, a forward pass succeeds exactly
/// when every weight and bias has the shape that the topology calls for,
/// and its output is then as long as the last layer; otherwise it fails
/// with a matrix shape error. Misshapen parameters never pass silently,
/// even where their shapes chain onto one another.
pub proof fn lemma_forward_shape_mismatch(layers: Seq<usize>, ws: Seq<Shape>, bs: Seq<Shape>, n: usize)
    requires
        valid_layers(layers),
        ws.len() == layers.len() - 1,
        bs.len() == ws.len(),
        n == layers[0],
    ensures
        forward_spec(layers, ws, bs, n) is Ok <==> shapes_match(layers, ws, bs),
        forward_spec(layers, ws, bs, n) matches Ok(c) ==> c.last() == column_spec(layers.last()),
        forward_spec(layers, ws, bs, n) matches Err(e) ==> e is MatrixError,
{
    lemma_params_from(layers, ws, bs, 0);
    if shapes_match(layers, ws, bs) {
        lemma_forward_output_size(layers, ws, bs, n);
    } else {
        if params_spec(layers, ws, bs) is Ok {
            assert forall|i: int| 0 <= i < bs.len() implies bs[i] == bias_shape_spec(layers, i) by {
                assert(ws[i] == weight_shape_spec(layers, i));
            }
        }
    }
}

/// A backward pass rejects every target whose length is not the last layer's size.
pub proof fn lemma_backward_rejects_target_length(
    layers: Seq<usize>,
    ws: Seq<Shape>,
    bs: Seq<Shape>,
    cache: Seq<Shape>,
    output_len: usize,
    target_len: usize,
)
    requires
        target_len != layers.last(),
    ensures
        backward_spec(layers, ws, bs, cache, output_len, target_len) == Err::<(), Error>(Error::InvalidTargetLength),
{
}

proof fn lemma_backward_from_fits(layers: Seq<usize>, ws: Seq<Shape>, bs: Seq<Shape>, cache: Seq<Shape>, k: nat)
    requires
        valid_layers(layers),
        shapes_match(layers, ws, bs),
        cache.len() == layers.len(),
        forall|j: int| 0 <= j < cache.len() ==> cache[j] == column_spec(layers[j]),
        k <= ws.len(),
    ensures
        backward_from(ws, bs, cache, k, column_spec(layers[k as int]), column_spec(layers[k as int])) == Ok::<(), Error>(()),
    decreases k,
{
    if k > 0 {
        let i = k - 1;
        assert(ws[i] == weight_shape_spec(layers, i));
        assert(bs[i] == bias_shape_spec(layers, i));
        assert(cache[i] == column_spec(layers[i]));
        lemma_backward_from_fits(layers, ws, bs, cache, i as nat);
    }
}

/// Over parameters shaped as the topology calls for, a backward pass with
/// the cache of a successful forward pass, that pass's output and a target
/// of the last layer's size succeeds.
pub proof fn lemma_backward_after_forward(layers: Seq<usize>, ws: Seq<Shape>, bs: Seq<Shape>, n: usize)
    requires
        valid_layers(layers),
        shapes_match(layers, ws, bs),
        n == layers[0],
    ensures
        forward_spec(layers, ws, bs, n) matches Ok(c) && backward_spec(layers, ws, bs, c, c.last().rows, layers.last())
            == Ok::<(), Error>(()),
{
    lemma_forward_output_size(layers, ws, bs, n);
    lemma_params_from(layers, ws, bs, 0);
    let c = forward_spec(layers, ws, bs, n)->Ok_0;
    lemma_forward_cache_columns(layers, ws, bs, n, ws.len());
    lemma_backward_from_fits(layers, ws, bs, c, ws.len());
}

proof fn lemma_forward_cache_columns(layers: Seq<usize>, ws: Seq<Shape>, bs: Seq<Shape>, n: usize, k: nat)
    requires
        valid_layers(layers),
        shapes_match(layers, ws, bs),
        n == layers[0],
        k <= ws.len(),
    ensures
        forward_prefix(ws, bs, column_spec(n), k) matches Ok(c) && c.len() == k + 1 && forall|j: int|
            0 <= j <= k ==> c[j] == column_spec(layers[j]),
    decreases k,
{
    if k > 0 {
        let i = (k - 1) as int;
        lemma_forward_cache_columns(layers, ws, bs, n, (k - 1) as nat);
        assert(ws[i] == weight_shape_spec(layers, i));
        assert(bs[i] == bias_shape_spec(layers, i));
        let c = forward_prefix(ws, bs, column_spec(n), (k - 1) as nat)->Ok_0;
        assert(layer_step_spec(ws[i], bs[i], c.last()) == Ok::<Shape, Error>(column_spec(layers[k as int])));
    }
}

} // verus!
