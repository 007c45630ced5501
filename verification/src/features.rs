//! Sparse feature vectors: pairs of a feature index and a value.
//!
//! Before a model scores a feature vector, the pairs are put in ascending
//! order of feature index (keeping the given order of pairs that share an
//! index), and the vector is refused when an index occurs twice or does not
//! fit the model's feature dimension. The value of each pair is carried along
//! untouched, so the code is generic over it.

use vstd::prelude::*;

verus! {

// ---------------------------------------------------------------------------
// The model
// ---------------------------------------------------------------------------

/// `s` is in non-decreasing order of feature index.
pub open spec fn sorted_by_index<V>(s: Seq<(u32, V)>) -> bool {
    forall|i: int, j: int| 0 <= i <= j < s.len() ==> #[trigger] s[i].0 <= #[trigger] s[j].0
}

/// `s` is in strictly increasing order of feature index.
pub open spec fn strictly_ascending<V>(s: Seq<(u32, V)>) -> bool {
    forall|i: int, j: int| 0 <= i < j < s.len() ==> #[trigger] s[i].0 < #[trigger] s[j].0
}

/// No feature index occurs twice in `s`.
pub open spec fn distinct_indices<V>(s: Seq<(u32, V)>) -> bool {
    forall|i: int, j: int|
        0 <= i < s.len() && 0 <= j < s.len() && i != j ==> #[trigger] s[i].0 != #[trigger] s[j].0
}

/// The bound that feature indices are held to: the model's feature
/// dimension, converted to `u32` (so taken modulo 2^32).
pub open spec fn index_limit(n_features: usize) -> int {
    (n_features as u32) as int
}

/// Every feature index of `s` is below `limit`.
pub open spec fn all_below<V>(s: Seq<(u32, V)>, limit: int) -> bool {
    forall|i: int| 0 <= i < s.len() ==> #[trigger] s[i].0 < limit
}

/// `p` is a bijection of `0..n` onto itself.
pub open spec fn is_bijection(p: Seq<int>, n: int) -> bool {
    &&& p.len() == n
    &&& forall|i: int| 0 <= i < n ==> 0 <= #[trigger] p[i] < n
    &&& forall|i: int, j: int| 0 <= i < n && 0 <= j < n && i != j ==> #[trigger] p[i] != #[trigger] p[j]
    &&& forall|k: int| 0 <= k < n ==> #[trigger] hits(p, n, k)
}

/// Some position of `p` below `n` holds `k`.
pub open spec fn hits(p: Seq<int>, n: int, k: int) -> bool {
    exists|i: int| 0 <= i < n && #[trigger] p[i] == k
}

/// `r` lists the elements of `s`, element `i` of `r` being element `p[i]` of `s`.
pub open spec fn rearranged_by<A>(s: Seq<A>, r: Seq<A>, p: Seq<int>) -> bool {
    &&& r.len() == s.len()
    &&& is_bijection(p, s.len() as int)
    &&& forall|i: int| 0 <= i < r.len() ==> #[trigger] r[i] == s[p[i]]
}

/// `r` is `s` rearranged by `p`, and pairs of `r` that share a feature index
/// keep the order they had in `s`.
pub open spec fn stable_rearrangement<V>(s: Seq<(u32, V)>, r: Seq<(u32, V)>, p: Seq<int>) -> bool {
    &&& rearranged_by(s, r, p)
    &&& forall|i: int, j: int|
        0 <= i < j < r.len() && #[trigger] r[i].0 == #[trigger] r[j].0 ==> p[i] < p[j]
}

/// `r` is what a stable sort of `s` by feature index gives.
pub open spec fn is_stable_sort<V>(s: Seq<(u32, V)>, r: Seq<(u32, V)>) -> bool {
    &&& sorted_by_index(r)
    &&& exists|p: Seq<int>| #[trigger] stable_rearrangement(s, r, p)
}

/// A feature vector that a model with `n_features` features accepts.
pub open spec fn accepted<V>(s: Seq<(u32, V)>, n_features: usize) -> bool {
    distinct_indices(s) && all_below(s, index_limit(n_features))
}

/// `r` is the prepared form of `s`: its pairs in strictly ascending order
/// of feature index.
pub open spec fn prepared<V>(s: Seq<(u32, V)>, r: Seq<(u32, V)>) -> bool {
    strictly_ascending(r) && is_stable_sort(s, r)
}

/// Why a feature vector is refused.
#[derive(Clone, Copy, Debug, PartialEq, Eq, Structural)]
pub enum FeatureError {
    /// A feature index occurs more than once.
    NotAscending,
    /// A feature index is not below the model's feature dimension.
    OutOfRange,
}

/// The refusal that a feature vector `s` that is not accepted gets: a
/// repeated index is reported before an index out of range.
pub open spec fn refusal<V>(s: Seq<(u32, V)>) -> FeatureError {
    if !distinct_indices(s) {
        FeatureError::NotAscending
    } else {
        FeatureError::OutOfRange
    }
}

impl FeatureError {
    /// The message that a caller reports for this refusal.
    pub fn message(&self) -> (msg: &'static str)
        ensures
            *self == FeatureError::NotAscending ==> msg@ == "Feature indices must be strictly ascending"@,
            *self == FeatureError::OutOfRange ==> msg@ == "Feature index out of range"@,
    {
        match self {
            FeatureError::NotAscending => "Feature indices must be strictly ascending",
            FeatureError::OutOfRange => "Feature index out of range",
        }
    }
}

// ---------------------------------------------------------------------------
// Lemmas
// ---------------------------------------------------------------------------

/// One step of insertion: putting element `i` of `s` at `pos` of a stably
/// sorted `out` of the first `i` elements keeps every invariant of the sort.
proof fn lemma_insert_step<V>(
    s: Seq<(u32, V)>,
    out: Seq<(u32, V)>,
    p: Seq<int>,
    q: Seq<int>,
    i: int,
    pos: int,
)
    requires
        0 <= i < s.len(),
        out.len() == i,
        p.len() == i,
        q.len() == i,
        0 <= pos <= i,
        sorted_by_index(out),
        forall|j: int| 0 <= j < i ==> 0 <= #[trigger] p[j] < i && out[j] == s[p[j]] && q[p[j]] == j,
        forall|a: int| 0 <= a < i ==> 0 <= #[trigger] q[a] < i && p[q[a]] == a,
        forall|j: int, k: int|
            0 <= j < k < i && #[trigger] out[j].0 == #[trigger] out[k].0 ==> p[j] < p[k],
        forall|m: int| 0 <= m < pos ==> #[trigger] out[m].0 <= s[i].0,
        forall|m: int| pos <= m < i ==> #[trigger] out[m].0 > s[i].0,
    ensures
        ({
            let out2 = out.insert(pos, s[i]);
            let p2 = p.insert(pos, i);
            let q2 = q.map_values(|a: int| if a >= pos { a + 1 } else { a }).push(pos);
            &&& out2.len() == i + 1
            &&& p2.len() == i + 1
            &&& q2.len() == i + 1
            &&& sorted_by_index(out2)
            &&& forall|j: int|
                0 <= j < i + 1 ==> 0 <= #[trigger] p2[j] < i + 1 && out2[j] == s[p2[j]] && q2[p2[j]] == j
            &&& forall|a: int| 0 <= a < i + 1 ==> 0 <= #[trigger] q2[a] < i + 1 && p2[q2[a]] == a
            &&& forall|j: int, k: int|
                0 <= j < k < i + 1 && #[trigger] out2[j].0 == #[trigger] out2[k].0 ==> p2[j] < p2[k]
        }),
{
    let out2 = out.insert(pos, s[i]);
    let p2 = p.insert(pos, i);
    let q2 = q.map_values(|a: int| if a >= pos { a + 1 } else { a }).push(pos);
    out.insert_ensures(pos, s[i]);
    p.insert_ensures(pos, i);
    assert forall|j: int| 0 <= j < i + 1 implies out2[j] == (if j < pos {
        out[j]
    } else if j == pos {
        s[i]
    } else {
        out[j - 1]
    }) && p2[j] == (if j < pos {
        p[j]
    } else if j == pos {
        i
    } else {
        p[j - 1]
    }) by {
        if j > pos {
            assert(out2[(j - 1) + 1] == out[j - 1]);
            assert(p2[(j - 1) + 1] == p[j - 1]);
        }
    }
    assert forall|a: int| 0 <= a < i + 1 implies q2[a] == (if a == i {
        pos
    } else if q[a] >= pos {
        q[a] + 1
    } else {
        q[a]
    }) by {}
    assert forall|j: int, k: int| 0 <= j <= k < i + 1 implies #[trigger] out2[j].0 <= #[trigger] out2[k].0 by {
        if j < pos && k > pos {
            assert(out[j].0 <= s[i].0);
            assert(out[k - 1].0 > s[i].0);
        } else if j < pos && k == pos {
            assert(out[j].0 <= s[i].0);
        } else if j == pos && k > pos {
            assert(out[k - 1].0 > s[i].0);
        } else if j > pos {
            assert(out[j - 1].0 <= out[k - 1].0);
        } else if j < pos && k < pos {
            assert(out[j].0 <= out[k].0);
        }
    }
    assert forall|j: int| 0 <= j < i + 1 implies 0 <= #[trigger] p2[j] < i + 1 && out2[j] == s[p2[j]]
        && q2[p2[j]] == j by {
        if j < pos {
            assert(q[p[j]] == j);
        } else if j > pos {
            assert(q[p[j - 1]] == j - 1);
        }
    }
    assert forall|a: int| 0 <= a < i + 1 implies 0 <= #[trigger] q2[a] < i + 1 && p2[q2[a]] == a by {
        if a < i {
            assert(p[q[a]] == a);
        }
    }
    assert forall|j: int, k: int|
        0 <= j < k < i + 1 && #[trigger] out2[j].0 == #[trigger] out2[k].0 implies p2[j] < p2[k] by {
        if j < pos && k == pos {
        } else if j == pos && k > pos {
            assert(out[k - 1].0 > s[i].0);
        } else if j < pos && k > pos {
            assert(out[j].0 <= s[i].0);
            assert(out[k - 1].0 > s[i].0);
        } else if j > pos {
            assert(out[j - 1].0 == out[k - 1].0);
        } else if j < pos && k < pos {
            assert(out[j].0 == out[k].0);
        }
    }
}

// ---------------------------------------------------------------------------
// Sorting
// ---------------------------------------------------------------------------

/// Stable insertion sort by feature index; also hands back, as ghost values,
/// the rearrangement `p` (element `j` of the result is element `p[j]` of the
/// input) and its inverse `q`.
fn sort_with_witness<V>(pairs: Vec<(u32, V)>) -> (res: (Vec<(u32, V)>, Ghost<Seq<int>>, Ghost<Seq<int>>))
    ensures
        res.0@.len() == pairs@.len(),
        res.1@.len() == pairs@.len(),
        res.2@.len() == pairs@.len(),
        sorted_by_index(res.0@),
        forall|j: int|
            0 <= j < pairs@.len() ==> 0 <= #[trigger] res.1@[j] < pairs@.len() && res.0@[j]
                == pairs@[res.1@[j]] && res.2@[res.1@[j]] == j,
        forall|a: int| 0 <= a < pairs@.len() ==> 0 <= #[trigger] res.2@[a] < pairs@.len() && res.1@[res.2@[a]] == a,
        forall|j: int, k: int|
            0 <= j < k < pairs@.len() && #[trigger] res.0@[j].0 == #[trigger] res.0@[k].0 ==> res.1@[j] < res.1@[k],
{
    let ghost s = pairs@;
    let ghost n = s.len();
    let total = pairs.len();
    let mut input = pairs;
    // Move the pairs into `pending`, last one first, so that popping from
    // `pending` gives them back in their original order.
    let mut pending: Vec<(u32, V)> = Vec::new();
    while input.len() > 0
        invariant
            n == s.len(),
            input@.len() + pending@.len() == n,
            input@ == s.subrange(0, input@.len() as int),
            forall|k: int| 0 <= k < pending@.len() ==> #[trigger] pending@[k] == s[n - 1 - k],
        decreases input@.len(),
    {
        match input.pop() {
            Some(x) => {
                pending.push(x);
            },
            None => {},
        }
    }
    let mut out: Vec<(u32, V)> = Vec::new();
    let ghost mut p: Seq<int> = Seq::empty();
    let ghost mut q: Seq<int> = Seq::empty();
    let mut i: usize = 0;
    while pending.len() > 0
        invariant
            n == s.len(),
            n == total,
            pending@.len() + i == n,
            forall|k: int| 0 <= k < pending@.len() ==> #[trigger] pending@[k] == s[n - 1 - k],
            out@.len() == i,
            p.len() == i,
            q.len() == i,
            sorted_by_index(out@),
            forall|j: int| 0 <= j < i ==> 0 <= #[trigger] p[j] < i && out@[j] == s[p[j]] && q[p[j]] == j,
            forall|a: int| 0 <= a < i ==> 0 <= #[trigger] q[a] < i && p[q[a]] == a,
            forall|j: int, k: int|
                0 <= j < k < i && #[trigger] out@[j].0 == #[trigger] out@[k].0 ==> p[j] < p[k],
        decreases pending@.len(),
    {
        let ghost last = pending@.len() - 1;
        match pending.pop() {
            Some(x) => {
                assert(x == s[i as int]);
                let key = x.0;
                let mut pos: usize = out.len();
                while pos > 0 && out[pos - 1].0 > key
                    invariant
                        pos <= out@.len(),
                        forall|m: int| pos <= m < out@.len() ==> #[trigger] out@[m].0 > key,
                    decreases pos,
                {
                    pos = pos - 1;
                }
                proof {
                    assert forall|m: int| 0 <= m < pos implies #[trigger] out@[m].0 <= s[i as int].0 by {
                        assert(out@[m].0 <= out@[pos - 1].0);
                    }
                    lemma_insert_step(s, out@, p, q, i as int, pos as int);
                    p = p.insert(pos as int, i as int);
                    q = q.map_values(|a: int| if a >= pos { a + 1 } else { a }).push(pos as int);
                }
                out.insert(pos, x);
                i = i + 1;
            },
            None => {},
        }
    }
    (out, Ghost(p), Ghost(q))
}

/// The ghost rearrangement `p` and its inverse `q` that the sort hands
/// back make `p` a bijection.
proof fn lemma_witness_is_bijection(p: Seq<int>, q: Seq<int>, n: int)
    requires
        p.len() == n,
        q.len() == n,
        forall|j: int| 0 <= j < n ==> 0 <= #[trigger] p[j] < n && q[p[j]] == j,
        forall|a: int| 0 <= a < n ==> 0 <= #[trigger] q[a] < n && p[q[a]] == a,
    ensures
        is_bijection(p, n),
{
    assert forall|i: int, j: int| 0 <= i < n && 0 <= j < n && i != j implies #[trigger] p[i] != #[trigger] p[j] by {
        assert(q[p[i]] == i && q[p[j]] == j);
    }
    assert forall|k: int| 0 <= k < n implies #[trigger] hits(p, n, k) by {
        assert(p[q[k]] == k);
    }
}

/// A strictly ascending rearrangement of `s` shows that `s` has no
/// repeated index.
proof fn lemma_strict_rearrangement_is_distinct<V>(s: Seq<(u32, V)>, r: Seq<(u32, V)>, q: Seq<int>, p: Seq<int>)
    requires
        r.len() == s.len(),
        q.len() == s.len(),
        p.len() == s.len(),
        forall|a: int| 0 <= a < s.len() ==> 0 <= #[trigger] q[a] < s.len() && p[q[a]] == a,
        forall|j: int| 0 <= j < r.len() ==> #[trigger] r[j] == s[p[j]],
        strictly_ascending(r),
    ensures
        distinct_indices(s),
{
    assert forall|a: int, b: int| 0 <= a < s.len() && 0 <= b < s.len() && a != b implies #[trigger] s[a].0
        != #[trigger] s[b].0 by {
        assert(r[q[a]] == s[p[q[a]]]);
        assert(r[q[b]] == s[p[q[b]]]);
        if q[a] < q[b] {
            assert(r[q[a]].0 < r[q[b]].0);
        } else {
            assert(r[q[b]].0 < r[q[a]].0);
        }
    }
}

/// Sorts the pairs by feature index; pairs that share an index keep their
/// order.
pub fn sort_by_feature_index<V>(pairs: Vec<(u32, V)>) -> (sorted: Vec<(u32, V)>)
    ensures
        is_stable_sort(pairs@, sorted@),
{
    let ghost s = pairs@;
    let (sorted, Ghost(p), Ghost(q)) = sort_with_witness(pairs);
    proof {
        lemma_witness_is_bijection(p, q, s.len() as int);
        assert(stable_rearrangement(s, sorted@, p));
    }
    sorted
}

/// Puts a feature vector in the form that a model with `n_features`
/// features scores: its pairs sorted by feature index. The vector is refused
/// when, once sorted, its indices are not strictly ascending (an index
/// occurs twice), or else when its smallest or largest index is not below
/// `n_features` taken as a `u32`. An empty vector is always accepted.
pub fn prepare_features<V>(pairs: Vec<(u32, V)>, n_features: usize) -> (res: Result<Vec<(u32, V)>, FeatureError>)
    ensures
        res is Ok <==> accepted(pairs@, n_features),
        res matches Ok(v) ==> prepared(pairs@, v@),
        res matches Err(e) ==> e == refusal(pairs@),
        res matches Ok(v) ==> v@.len() == pairs@.len(),
        res matches Ok(v) ==> forall|i: int, j: int| 0 <= i < j < v@.len() ==> #[trigger] v@[i].0 < #[trigger] v@[j].0,
        res matches Ok(v) ==> forall|i: int| 0 <= i < v@.len() ==> (#[trigger] v@[i].0 as int) < (n_features as u32) as int,
        (res == Err::<Vec<(u32, V)>, FeatureError>(FeatureError::NotAscending)) <==> exists|i: int, j: int|
            0 <= i < j < pairs@.len() && #[trigger] pairs@[i].0 == #[trigger] pairs@[j].0,
        (res is Ok) ==> forall|i: int| 0 <= i < pairs@.len() ==> (#[trigger] pairs@[i].0 as int) < (n_features as u32) as int,
{
    let ghost s = pairs@;
    let (sorted, Ghost(p), Ghost(q)) = sort_with_witness(pairs);
    proof {
        lemma_witness_is_bijection(p, q, s.len() as int);
        assert(stable_rearrangement(s, sorted@, p));
    }
    let n = sorted.len();
    if n > 0 {
        let mut i: usize = 1;
        #[verifier::loop_isolation(false)]
        while i < n
            invariant
                1 <= i <= n,
                n == sorted@.len(),
                sorted_by_index(sorted@),
                forall|j: int, k: int| 0 <= j < k < i ==> #[trigger] sorted@[j].0 < #[trigger] sorted@[k].0,
            decreases n - i,
        {
            if !(sorted[i - 1].0 < sorted[i].0) {
                proof {
                    let a = p[i - 1];
                    let b = p[i as int];
                    assert(sorted@[i - 1].0 <= sorted@[i as int].0);
                    assert(q[a] == i - 1 && q[b] == i);
                    assert(s[a].0 == s[b].0);
                }
                return Err(FeatureError::NotAscending);
            }
            proof {
                assert forall|j: int, k: int| 0 <= j < k < i + 1 implies #[trigger] sorted@[j].0
                    < #[trigger] sorted@[k].0 by {
                    if k == i && j < i - 1 {
                        assert(sorted@[j].0 <= sorted@[i - 1].0);
                    }
                }
            }
            i = i + 1;
        }
        proof {
            lemma_strict_rearrangement_is_distinct(s, sorted@, q, p);
        }
        let first = sorted[0].0;
        let last = sorted[n - 1].0;
        #[verifier::truncate]
        let limit = n_features as u32;
        if first >= limit || last >= limit {
            proof {
                assert(sorted@[0].0 <= sorted@[n - 1].0);
                assert(s[p[n - 1]].0 == last);
            }
            return Err(FeatureError::OutOfRange);
        }
        proof {
            assert forall|a: int| 0 <= a < s.len() implies #[trigger] s[a].0 < index_limit(n_features) by {
                assert(s[a] == sorted@[q[a]]);
                assert(sorted@[q[a]].0 <= sorted@[n - 1].0);
            }
        }
    }
    Ok(sorted)
}

// ---------------------------------------------------------------------------
// Laws
// ---------------------------------------------------------------------------

/// An inverse of a bijection.
proof fn lemma_inverse(p: Seq<int>, n: int) -> (q: Seq<int>)
    requires
        is_bijection(p, n),
    ensures
        q.len() == n,
        forall|a: int| 0 <= a < n ==> 0 <= #[trigger] q[a] < n && p[q[a]] == a,
{
    let q = Seq::new(n as nat, |a: int| choose|i: int| 0 <= i < n && p[i] == a);
    assert forall|a: int| 0 <= a < n implies 0 <= #[trigger] q[a] < n && p[q[a]] == a by {
        assert(hits(p, n, a));
    }
    q
}

/// A strictly increasing sequence of `n` numbers in `0..n` is `0, 1, ..., n-1`:
/// each element is at least its position.
proof fn lemma_increasing_at_least_position(g: Seq<int>, i: int)
    requires
        0 <= i < g.len(),
        forall|j: int| 0 <= j < g.len() ==> 0 <= #[trigger] g[j],
        forall|j: int, k: int| 0 <= j < k < g.len() ==> #[trigger] g[j] < #[trigger] g[k],
    ensures
        g[i] >= i,
    decreases i,
{
    if i > 0 {
        lemma_increasing_at_least_position(g, i - 1);
        assert(g[i - 1] < g[i]);
    }
}

/// ... and each element is at most its position.
proof fn lemma_increasing_at_most_position(g: Seq<int>, i: int)
    requires
        0 <= i < g.len(),
        forall|j: int| 0 <= j < g.len() ==> #[trigger] g[j] < g.len(),
        forall|j: int, k: int| 0 <= j < k < g.len() ==> #[trigger] g[j] < #[trigger] g[k],
    ensures
        g[i] <= i,
    decreases g.len() - i,
{
    if i < g.len() - 1 {
        lemma_increasing_at_most_position(g, i + 1);
        assert(g[i] < g[i + 1]);
    }
}

/// If every element of the strictly ascending `r2` is some element of the
/// strictly ascending `r1` of the same length, then `r2` is `r1`.
proof fn lemma_strictly_ascending_match<V>(r1: Seq<(u32, V)>, r2: Seq<(u32, V)>, g: Seq<int>)
    requires
        r1.len() == r2.len(),
        g.len() == r2.len(),
        strictly_ascending(r1),
        strictly_ascending(r2),
        forall|k: int| 0 <= k < r2.len() ==> 0 <= #[trigger] g[k] < r1.len() && r2[k] == r1[g[k]],
    ensures
        r2 == r1,
{
    assert forall|j: int, k: int| 0 <= j < k < g.len() implies #[trigger] g[j] < #[trigger] g[k] by {
        assert(r2[j].0 < r2[k].0);
        if g[j] > g[k] {
            assert(r1[g[k]].0 < r1[g[j]].0);
        }
    }
    assert forall|k: int| 0 <= k < r2.len() implies r2[k] == r1[k] by {
        lemma_increasing_at_least_position(g, k);
        lemma_increasing_at_most_position(g, k);
    }
    assert(r2 =~= r1);
}

/// Sorting by feature index is deterministic: a sequence has only one
/// stable sort by feature index.
pub proof fn lemma_stable_sort_is_unique<V>(s: Seq<(u32, V)>, r1: Seq<(u32, V)>, r2: Seq<(u32, V)>)
    requires
        is_stable_sort(s, r1),
        is_stable_sort(s, r2),
    ensures
        r1 == r2,
{
    let n = s.len() as int;
    let p1 = choose|p: Seq<int>| #[trigger] stable_rearrangement(s, r1, p);
    let p2 = choose|p: Seq<int>| #[trigger] stable_rearrangement(s, r2, p);
    let q1 = lemma_inverse(p1, n);
    let g = Seq::new(n as nat, |k: int| q1[p2[k]]);
    assert forall|k: int| 0 <= k < n implies 0 <= #[trigger] g[k] < n && r2[k] == r1[g[k]] && p1[g[k]] == p2[k] by {
        assert(0 <= p2[k] < n);
        assert(r1[q1[p2[k]]] == s[p1[q1[p2[k]]]]);
    }
    assert forall|j: int, k: int| 0 <= j < k < n implies #[trigger] g[j] < #[trigger] g[k] by {
        assert(p2[j] != p2[k]);
        assert(r2[j].0 <= r2[k].0);
        if g[j] == g[k] {
            assert(p1[g[j]] == p1[g[k]]);
        } else if g[j] > g[k] {
            assert(r1[g[k]].0 <= r1[g[j]].0);
            if r2[j].0 == r2[k].0 {
                assert(p2[j] < p2[k]);
                assert(p1[g[k]] < p1[g[j]]);
            }
        }
    }
    assert forall|k: int| 0 <= k < n implies r2[k] == r1[k] by {
        lemma_increasing_at_least_position(g, k);
        lemma_increasing_at_most_position(g, k);
    }
    assert(r1 =~= r2);
}

/// Whether a feature vector is accepted does not depend on the order of its
/// pairs.
proof fn lemma_accepted_ignores_order<V>(s1: Seq<(u32, V)>, s2: Seq<(u32, V)>, h: Seq<int>, n_features: usize)
    requires
        rearranged_by(s1, s2, h),
    ensures
        accepted(s1, n_features) <==> accepted(s2, n_features),
{
    let n = s1.len() as int;
    let hi = lemma_inverse(h, n);
    assert forall|a: int| 0 <= a < n implies s1[a] == #[trigger] s2[hi[a]] by {}
    if distinct_indices(s1) {
        assert forall|i: int, j: int| 0 <= i < n && 0 <= j < n && i != j implies #[trigger] s2[i].0
            != #[trigger] s2[j].0 by {
            assert(s2[i] == s1[h[i]] && s2[j] == s1[h[j]]);
        }
    }
    if distinct_indices(s2) {
        assert forall|a: int, b: int| 0 <= a < n && 0 <= b < n && a != b implies #[trigger] s1[a].0
            != #[trigger] s1[b].0 by {
            assert(s1[a] == s2[hi[a]] && s1[b] == s2[hi[b]]);
            assert(h[hi[a]] == a && h[hi[b]] == b);
        }
    }
    let limit = index_limit(n_features);
    if all_below(s1, limit) {
        assert forall|i: int| 0 <= i < n implies #[trigger] s2[i].0 < limit by {
            assert(s2[i] == s1[h[i]]);
        }
    }
    if all_below(s2, limit) {
        assert forall|a: int| 0 <= a < n implies #[trigger] s1[a].0 < limit by {
            assert(s1[a] == s2[hi[a]]);
        }
    }
}

/// Preparing a feature vector does not depend on the order in which its
/// pairs are given: two vectors that hold the same pairs in any order are
/// both accepted or both refused, and when accepted they are prepared into
/// the same vector.
pub proof fn lemma_prepare_ignores_input_order<V>(
    s1: Seq<(u32, V)>,
    s2: Seq<(u32, V)>,
    h: Seq<int>,
    r1: Seq<(u32, V)>,
    r2: Seq<(u32, V)>,
    n_features: usize,
)
    requires
        rearranged_by(s1, s2, h),
    ensures
        accepted(s1, n_features) <==> accepted(s2, n_features),
        prepared(s1, r1) && prepared(s2, r2) ==> r1 == r2,
{
    lemma_accepted_ignores_order(s1, s2, h, n_features);
    if prepared(s1, r1) && prepared(s2, r2) {
        let n = s1.len() as int;
        let p1 = choose|p: Seq<int>| #[trigger] stable_rearrangement(s1, r1, p);
        let p2 = choose|p: Seq<int>| #[trigger] stable_rearrangement(s2, r2, p);
        let q1 = lemma_inverse(p1, n);
        let g = Seq::new(n as nat, |k: int| q1[h[p2[k]]]);
        assert forall|k: int| 0 <= k < r2.len() implies 0 <= #[trigger] g[k] < r1.len() && r2[k] == r1[g[k]] by {
            let a = h[p2[k]];
            assert(0 <= p2[k] < n);
            assert(0 <= a < n);
            assert(r2[k] == s2[p2[k]]);
            assert(s2[p2[k]] == s1[a]);
            assert(r1[q1[a]] == s1[p1[q1[a]]]);
        }
        lemma_strictly_ascending_match(r1, r2, g);
    }
}

/// Preparing is idempotent: the prepared form of an accepted vector is
/// accepted too, and preparing it again gives it back unchanged.
pub proof fn lemma_prepare_is_idempotent<V>(s: Seq<(u32, V)>, r: Seq<(u32, V)>, again: Seq<(u32, V)>, n_features: usize)
    requires
        accepted(s, n_features),
        prepared(s, r),
    ensures
        accepted(r, n_features),
        prepared(r, again) ==> again == r,
{
    let n = s.len() as int;
    let p = choose|p: Seq<int>| #[trigger] stable_rearrangement(s, r, p);
    lemma_accepted_ignores_order(s, r, p, n_features);
    if prepared(r, again) {
        let p2 = choose|p: Seq<int>| #[trigger] stable_rearrangement(r, again, p);
        assert forall|k: int| 0 <= k < again.len() implies 0 <= #[trigger] p2[k] < r.len() && again[k] == r[p2[k]] by {}
        lemma_strictly_ascending_match(r, again, p2);
    }
}

} // verus!
