use vstd::prelude::*;
use crate::error::Error;

verus! {

/// The parameters that a network of `count` layer transitions takes from a
/// saved list: its first `count` entries. A list that is too short is
/// malformed.
pub fn take_parameters<T>(saved: Vec<T>, count: usize) -> (r: Result<Vec<T>, Error>)
    ensures
        r is Ok <==> saved@.len() >= count,
        r matches Ok(v) ==> v@ == saved@.take(count as int),
        r matches Err(e) ==> e is SerdeError,
{
    if saved.len() < count {
        return Err(Error::SerdeError("fewer matrices saved than the network has layer transitions".to_owned()));
    }
    let mut kept = saved;
    kept.truncate(count);
    Ok(kept)
}

/// Loading what was saved from a network of the same topology gives back
/// every saved matrix, in its place.
pub proof fn lemma_load_after_save<T>(saved: Seq<T>, count: usize)
    requires
        saved.len() == count,
    ensures
        saved.take(count as int) == saved,
{
    assert(saved.take(count as int) =~= saved);
}

} // verus!
