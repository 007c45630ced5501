//! Options of a prediction request, and trimming of the ranked predictions
//! that a model returns.

use vstd::prelude::*;

verus! {

/// Beam size used for the tree search when the caller gives none.
pub const DEFAULT_BEAM_SIZE: usize = 10;

/// Number of top-ranked labels returned when the caller gives none.
pub const DEFAULT_TOP_K: usize = 10;

/// The resolved options of one prediction request.
#[derive(Clone, Copy, Debug, PartialEq, Eq, Structural)]
pub struct PredictOptions {
    /// Beam size of the search through each tree.
    pub beam_size: usize,
    /// How many of the highest-ranked labels are returned.
    pub top_k: usize,
}

/// The value an optional argument takes: the given one, else `default`.
pub open spec fn or_default<T>(given: Option<T>, default: T) -> T {
    match given {
        Some(v) => v,
        None => default,
    }
}

impl PredictOptions {
    /// Fills in the options that the caller left out with their defaults.
    pub fn resolve(beam_size: Option<usize>, top_k: Option<usize>) -> (opts: Self)
        ensures
            opts.beam_size == or_default(beam_size, DEFAULT_BEAM_SIZE),
            opts.top_k == or_default(top_k, DEFAULT_TOP_K),
            beam_size matches Some(b) ==> opts.beam_size == b,
            beam_size is None ==> opts.beam_size == 10,
            top_k matches Some(k) ==> opts.top_k == k,
            top_k is None ==> opts.top_k == 10,
    {
        let beam_size = match beam_size {
            Some(b) => b,
            None => DEFAULT_BEAM_SIZE,
        };
        let top_k = match top_k {
            Some(k) => k,
            None => DEFAULT_TOP_K,
        };
        PredictOptions { beam_size, top_k }
    }
}

/// The first `top_k` elements of `ranked`, or all of them when there are
/// fewer.
pub open spec fn top_of<T>(ranked: Seq<T>, top_k: usize) -> Seq<T> {
    if top_k < ranked.len() {
        ranked.take(top_k as int)
    } else {
        ranked
    }
}

/// Keeps the `top_k` highest-ranked predictions of a ranked list.
pub fn take_top<T>(ranked: Vec<T>, top_k: usize) -> (top: Vec<T>)
    ensures
        top@ == top_of(ranked@, top_k),
        top@.len() == if top_k < ranked@.len() { top_k as nat } else { ranked@.len() },
        forall|i: int| 0 <= i < top@.len() ==> #[trigger] top@[i] == ranked@[i],
{
    let mut top = ranked;
    top.truncate(top_k);
    proof {
        if top_k < ranked@.len() {
            assert(ranked@.subrange(0, top_k as int) =~= ranked@.take(top_k as int));
        }
    }
    top
}

} // verus!
