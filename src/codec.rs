use vstd::prelude::*;
use vstd::arithmetic::div_mod::{lemma_fundamental_div_mod, lemma_mod_pos_bound};
use vstd::arithmetic::mul::lemma_mul_is_commutative;
use crate::error::Error;

verus! {

/// The rows of a matrix of `rows` rows and `cols` columns whose entries are
/// stored column by column in `values`.
pub open spec fn rows_spec<T>(rows: nat, cols: nat, values: Seq<T>) -> Seq<Seq<T>> {
    Seq::new(rows, |i: int| Seq::new(cols, |j: int| values[j * rows + i]))
}

/// Every row is as long as the first.
pub open spec fn rectangular<T>(m: Seq<Seq<T>>) -> bool {
    forall|i: int| 0 <= i < m.len() ==> #[trigger] m[i].len() == m[0].len()
}

/// The number of columns of a list of rows: the first row's length.
pub open spec fn width<T>(m: Seq<Seq<T>>) -> nat {
    if m.len() == 0 {
        0
    } else {
        m[0].len()
    }
}

/// The entries of a rectangular list of rows, column by column.
pub open spec fn columns_spec<T>(m: Seq<Seq<T>>) -> Seq<T> {
    Seq::new(m.len() * width(m), |k: int| m[k % (m.len() as int)][k / (m.len() as int)])
}

/// A list of row vectors as a list of sequences.
pub open spec fn nested_view<T>(m: Seq<Vec<T>>) -> Seq<Seq<T>> {
    m.map_values(|v: Vec<T>| v@)
}

proof fn lemma_index_bound(i: int, j: int, rows: int, cols: int)
    requires
        0 <= i < rows,
        0 <= j < cols,
    ensures
        0 <= j * rows + i < rows * cols,
{
    assert(0 <= j * rows + i < rows * cols) by (nonlinear_arith)
        requires
            0 <= i < rows,
            0 <= j < cols,
    ;
}

/// Entry `k` of a column-by-column layout lies in row `k % rows` and column `k / rows`.
proof fn lemma_split_index(k: int, rows: int, cols: int)
    requires
        0 <= k < rows * cols,
        rows > 0,
    ensures
        0 <= k % rows < rows,
        0 <= k / rows < cols,
        (k / rows) * rows + k % rows == k,
{
    lemma_fundamental_div_mod(k, rows);
    lemma_mod_pos_bound(k, rows);
    lemma_mul_is_commutative(k / rows, rows);
    let q = k / rows;
    let r = k % rows;
    assert(0 <= q < cols) by (nonlinear_arith)
        requires
            k == q * rows + r,
            0 <= r < rows,
            0 <= k < rows * cols,
            rows > 0,
    ;
}

/// The rows of a matrix of `rows` × `cols` entries stored column by column.
pub fn to_rows<T: Copy>(rows: usize, cols: usize, values: &Vec<T>) -> (r: Vec<Vec<T>>)
    requires
        values@.len() == rows * cols,
    ensures
        nested_view(r@) == rows_spec(rows as nat, cols as nat, values@),
{
    let ghost want = rows_spec(rows as nat, cols as nat, values@);
    // Reading the length bounds it by usize::MAX, so that every index fits.
    let _count = values.len();
    let mut r: Vec<Vec<T>> = Vec::new();
    let mut i: usize = 0;
    while i < rows
        invariant
            i <= rows,
            values@.len() == rows * cols,
            values@.len() <= usize::MAX,
            want == rows_spec(rows as nat, cols as nat, values@),
            r@.len() == i,
            nested_view(r@) =~= want.take(i as int),
        decreases rows - i,
    {
        let mut row: Vec<T> = Vec::new();
        let mut j: usize = 0;
        while j < cols
            invariant
                j <= cols,
                i < rows,
                values@.len() == rows * cols,
                values@.len() <= usize::MAX,
                row@ =~= Seq::new(j as nat, |jj: int| values@[jj * rows + i]),
            decreases cols - j,
        {
            proof {
                lemma_index_bound(i as int, j as int, rows as int, cols as int);
            }
            row.push(values[j * rows + i]);
            j = j + 1;
        }
        assert(row@ =~= want[i as int]);
        let ghost before = r@;
        r.push(row);
        proof {
            assert(r@ == before.push(row));
            assert forall|x: int| 0 <= x <= i implies #[trigger] nested_view(r@)[x] == want[x] by {
                if x < i {
                    assert(r@[x] == before[x]);
                    assert(nested_view(before)[x] == want.take(i as int)[x]);
                }
            }
        }
        i = i + 1;
        assert(nested_view(r@) =~= want.take(i as int));
    }
    r
}

/// The number of rows, the number of columns and the entries, column by
/// column, of a matrix given as a list of rows. A ragged list is malformed.
pub fn from_rows<T: Copy>(m: &Vec<Vec<T>>) -> (r: Result<(usize, usize, Vec<T>), Error>)
    ensures
        r is Ok <==> rectangular(nested_view(m@)) && m@.len() * width(nested_view(m@)) <= usize::MAX,
        r matches Ok((nr, nc, v)) ==> nr == m@.len() && nc == width(nested_view(m@)) && v@ == columns_spec(
            nested_view(m@),
        ),
        r matches Err(e) ==> e is SerdeError,
{
    let ghost view = nested_view(m@);
    let nr = m.len();
    let nc = if nr == 0 {
        0
    } else {
        m[0].len()
    };
    let mut i: usize = 0;
    while i < nr
        invariant
            i <= nr,
            nr == m@.len(),
            view == nested_view(m@),
            nc == width(view),
            forall|k: int| 0 <= k < i ==> #[trigger] view[k].len() == nc,
        decreases nr - i,
    {
        if m[i].len() != nc {
            assert(view[i as int] == m@[i as int]@);
            assert(view[0] == m@[0]@);
            assert(!rectangular(view));
            return Err(Error::SerdeError("rows of unequal length".to_owned()));
        }
        i = i + 1;
    }
    let total = match nr.checked_mul(nc) {
        Some(t) => t,
        None => return Err(Error::SerdeError("matrix too large".to_owned())),
    };
    let mut v: Vec<T> = Vec::new();
    let mut k: usize = 0;
    while k < total
        invariant
            k <= total,
            total == nr * nc,
            nr == m@.len(),
            view == nested_view(m@),
            nc == width(view),
            forall|k: int| 0 <= k < nr ==> #[trigger] view[k].len() == nc,
            v@ =~= columns_spec(view).take(k as int),
        decreases total - k,
    {
        proof {
            lemma_split_index(k as int, nr as int, nc as int);
            assert(view[(k % nr) as int] == m@[(k % nr) as int]@);
            assert(view[(k % nr) as int].len() == nc);
        }
        let x = m[k % nr][k / nr];
        v.push(x);
        k = k + 1;
        assert(v@ =~= columns_spec(view).take(k as int));
    }
    assert(v@ =~= columns_spec(view));
    Ok((nr, nc, v))
}

/// Writing a matrix with at least one row as its rows and reading the rows
/// back gives its shape and every entry, in place.
pub proof fn lemma_rows_round_trip<T>(rows: nat, cols: nat, values: Seq<T>)
    requires
        rows > 0,
        values.len() == rows * cols,
    ensures
        rectangular(rows_spec(rows, cols, values)),
        rows_spec(rows, cols, values).len() == rows,
        width(rows_spec(rows, cols, values)) == cols,
        columns_spec(rows_spec(rows, cols, values)) == values,
{
    let m = rows_spec(rows, cols, values);
    assert forall|k: int| 0 <= k < values.len() implies columns_spec(m)[k] == values[k] by {
        lemma_split_index(k, rows as int, cols as int);
    }
    assert(columns_spec(m) =~= values);
}

} // verus!
