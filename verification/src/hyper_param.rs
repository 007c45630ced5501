//! Training hyper-parameters.
//!
//! A hyper-parameter set is built from optional keyword arguments, falling
//! back to the trainer's defaults; settings of the linear classifiers and of
//! the clustering may also come grouped in sub-parameter sets, which take
//! precedence over the keyword arguments. The real-valued settings are
//! carried untouched, so the types are generic over their number type `F`.

use vstd::prelude::*;
use crate::pool::PoolConfig;
use crate::pool::POOL_STACK_SIZE;
use crate::predictions::or_default;

verus! {

/// Loss type of the linear classifiers.
#[derive(Clone, Copy, Debug, PartialEq, Eq, Structural)]
pub enum LossType {
    /// Squared hinge loss.
    Hinge,
    /// Log loss.
    Log,
}

impl LossType {
    /// The representation of the loss type shown to users.
    #[allow(non_snake_case)]
    pub fn __repr__(&self) -> (repr: &'static str)
        ensures
            *self == LossType::Hinge ==> repr@ == "LossType.Hinge"@,
            *self == LossType::Log ==> repr@ == "LossType.Log"@,
    {
        match self {
            LossType::Hinge => "LossType.Hinge",
            LossType::Log => "LossType.Log",
        }
    }
}

/// A complete set of training hyper-parameters.
#[derive(Clone, Copy, Debug)]
pub struct HyperParam<F> {
    pub n_trees: usize,
    pub min_branch_size: usize,
    pub max_depth: usize,
    pub centroid_threshold: F,
    pub collapse_every_n_layers: usize,
    pub linear_loss_type: LossType,
    pub linear_eps: F,
    pub linear_c: F,
    pub linear_weight_threshold: F,
    pub linear_max_iter: u32,
    pub cluster_k: usize,
    pub cluster_balanced: bool,
    pub cluster_eps: F,
    pub cluster_min_size: usize,
    pub tree_structure_only: bool,
    pub train_trees_1_by_1: bool,
}

/// The keyword arguments of a hyper-parameter set: each one may be left
/// out, except the two flags, which are `false` unless given.
#[derive(Clone, Copy, Debug)]
pub struct HyperParamOptions<F> {
    pub n_trees: Option<usize>,
    pub min_branch_size: Option<usize>,
    pub max_depth: Option<usize>,
    pub centroid_threshold: Option<F>,
    pub collapse_every_n_layers: Option<usize>,
    pub linear_loss_type: Option<LossType>,
    pub linear_eps: Option<F>,
    pub linear_c: Option<F>,
    pub linear_weight_threshold: Option<F>,
    pub linear_max_iter: Option<u32>,
    pub cluster_k: Option<usize>,
    pub cluster_balanced: Option<bool>,
    pub cluster_eps: Option<F>,
    pub cluster_min_size: Option<usize>,
    pub tree_structure_only: bool,
    pub train_trees_1_by_1: bool,
}

/// Settings of the linear classifiers given as a sub-parameter set; a
/// setting that is absent (or of the wrong kind) is `None`.
#[derive(Clone, Copy, Debug)]
pub struct LinearOverrides<F> {
    pub eps: Option<F>,
    pub c: Option<F>,
    pub weight_threshold: Option<F>,
    pub max_iter: Option<u32>,
    pub loss_type: Option<LossType>,
}

/// Settings of the clustering given as a sub-parameter set; a setting that
/// is absent (or of the wrong kind) is `None`.
#[derive(Clone, Copy, Debug)]
pub struct ClusterOverrides<F> {
    pub k: Option<usize>,
    pub balanced: Option<bool>,
    pub eps: Option<F>,
    pub min_size: Option<usize>,
}

/// Both sub-parameter sets.
#[derive(Clone, Copy, Debug)]
pub struct SubParamOverrides<F> {
    pub linear: LinearOverrides<F>,
    pub cluster: ClusterOverrides<F>,
}

/// Keyword arguments that are all left out.
pub open spec fn unset_options<F>() -> HyperParamOptions<F> {
    HyperParamOptions {
        n_trees: None,
        min_branch_size: None,
        max_depth: None,
        centroid_threshold: None,
        collapse_every_n_layers: None,
        linear_loss_type: None,
        linear_eps: None,
        linear_c: None,
        linear_weight_threshold: None,
        linear_max_iter: None,
        cluster_k: None,
        cluster_balanced: None,
        cluster_eps: None,
        cluster_min_size: None,
        tree_structure_only: false,
        train_trees_1_by_1: false,
    }
}

/// No sub-parameter sets.
pub open spec fn no_overrides<F>() -> SubParamOverrides<F> {
    SubParamOverrides {
        linear: LinearOverrides { eps: None, c: None, weight_threshold: None, max_iter: None, loss_type: None },
        cluster: ClusterOverrides { k: None, balanced: None, eps: None, min_size: None },
    }
}

/// The hyper-parameter set made from keyword arguments `o`, sub-parameter
/// sets `s` and defaults `d`: a sub-parameter setting wins over a keyword
/// argument, which wins over the default.
pub open spec fn merged<F>(o: HyperParamOptions<F>, s: SubParamOverrides<F>, d: HyperParam<F>) -> HyperParam<F> {
    HyperParam {
        n_trees: or_default(o.n_trees, d.n_trees),
        min_branch_size: or_default(o.min_branch_size, d.min_branch_size),
        max_depth: or_default(o.max_depth, d.max_depth),
        centroid_threshold: or_default(o.centroid_threshold, d.centroid_threshold),
        collapse_every_n_layers: or_default(o.collapse_every_n_layers, d.collapse_every_n_layers),
        linear_loss_type: or_default(s.linear.loss_type, or_default(o.linear_loss_type, d.linear_loss_type)),
        linear_eps: or_default(s.linear.eps, or_default(o.linear_eps, d.linear_eps)),
        linear_c: or_default(s.linear.c, or_default(o.linear_c, d.linear_c)),
        linear_weight_threshold: or_default(
            s.linear.weight_threshold,
            or_default(o.linear_weight_threshold, d.linear_weight_threshold),
        ),
        linear_max_iter: or_default(s.linear.max_iter, or_default(o.linear_max_iter, d.linear_max_iter)),
        cluster_k: or_default(s.cluster.k, or_default(o.cluster_k, d.cluster_k)),
        cluster_balanced: or_default(s.cluster.balanced, or_default(o.cluster_balanced, d.cluster_balanced)),
        cluster_eps: or_default(s.cluster.eps, or_default(o.cluster_eps, d.cluster_eps)),
        cluster_min_size: or_default(s.cluster.min_size, or_default(o.cluster_min_size, d.cluster_min_size)),
        tree_structure_only: o.tree_structure_only,
        train_trees_1_by_1: o.train_trees_1_by_1,
    }
}

/// The given value, else `fallback`.
fn pick<T: Copy>(given: Option<T>, fallback: T) -> (v: T)
    ensures
        v == or_default(given, fallback),
{
    match given {
        Some(x) => x,
        None => fallback,
    }
}

impl<F: Copy> HyperParamOptions<F> {
    /// Keyword arguments that are all left out.
    pub fn unset() -> (o: Self)
        ensures
            o == unset_options::<F>(),
    {
        HyperParamOptions {
            n_trees: None,
            min_branch_size: None,
            max_depth: None,
            centroid_threshold: None,
            collapse_every_n_layers: None,
            linear_loss_type: None,
            linear_eps: None,
            linear_c: None,
            linear_weight_threshold: None,
            linear_max_iter: None,
            cluster_k: None,
            cluster_balanced: None,
            cluster_eps: None,
            cluster_min_size: None,
            tree_structure_only: false,
            train_trees_1_by_1: false,
        }
    }
}

impl<F: Copy> SubParamOverrides<F> {
    /// No sub-parameter sets.
    pub fn none() -> (s: Self)
        ensures
            s == no_overrides::<F>(),
    {
        SubParamOverrides {
            linear: LinearOverrides { eps: None, c: None, weight_threshold: None, max_iter: None, loss_type: None },
            cluster: ClusterOverrides { k: None, balanced: None, eps: None, min_size: None },
        }
    }
}

impl<F: Copy> HyperParam<F> {
    /// Builds a hyper-parameter set from keyword arguments, sub-parameter
    /// sets and the trainer's defaults: each setting comes from the
    /// sub-parameter set if it gives it, else from the keyword argument if
    /// given, else from the defaults; the two flags come from the keyword
    /// arguments.
    pub fn new(options: HyperParamOptions<F>, overrides: &SubParamOverrides<F>, defaults: &HyperParam<F>) -> (hp: Self)
        ensures
            hp == merged(options, *overrides, *defaults),
            options.n_trees matches Some(v) ==> hp.n_trees == v,
            options.min_branch_size matches Some(v) ==> hp.min_branch_size == v,
            options.max_depth matches Some(v) ==> hp.max_depth == v,
            options.centroid_threshold matches Some(v) ==> hp.centroid_threshold == v,
            options.collapse_every_n_layers matches Some(v) ==> hp.collapse_every_n_layers == v,
            options.linear_loss_type matches Some(v) ==> (overrides.linear.loss_type is None ==> hp.linear_loss_type == v),
            options.linear_eps matches Some(v) ==> (overrides.linear.eps is None ==> hp.linear_eps == v),
            options.linear_c matches Some(v) ==> (overrides.linear.c is None ==> hp.linear_c == v),
            options.linear_weight_threshold matches Some(v) ==> (overrides.linear.weight_threshold is None ==> hp.linear_weight_threshold == v),
            options.linear_max_iter matches Some(v) ==> (overrides.linear.max_iter is None ==> hp.linear_max_iter == v),
            options.cluster_k matches Some(v) ==> (overrides.cluster.k is None ==> hp.cluster_k == v),
            options.cluster_balanced matches Some(v) ==> (overrides.cluster.balanced is None ==> hp.cluster_balanced == v),
            options.cluster_eps matches Some(v) ==> (overrides.cluster.eps is None ==> hp.cluster_eps == v),
            options.cluster_min_size matches Some(v) ==> (overrides.cluster.min_size is None ==> hp.cluster_min_size == v),
            overrides.linear.loss_type matches Some(v) ==> hp.linear_loss_type == v,
            overrides.linear.eps matches Some(v) ==> hp.linear_eps == v,
            overrides.linear.c matches Some(v) ==> hp.linear_c == v,
            overrides.linear.weight_threshold matches Some(v) ==> hp.linear_weight_threshold == v,
            overrides.linear.max_iter matches Some(v) ==> hp.linear_max_iter == v,
            overrides.cluster.k matches Some(v) ==> hp.cluster_k == v,
            overrides.cluster.balanced matches Some(v) ==> hp.cluster_balanced == v,
            overrides.cluster.eps matches Some(v) ==> hp.cluster_eps == v,
            overrides.cluster.min_size matches Some(v) ==> hp.cluster_min_size == v,
            options.n_trees is None ==> hp.n_trees == defaults.n_trees,
            options.min_branch_size is None ==> hp.min_branch_size == defaults.min_branch_size,
            options.max_depth is None ==> hp.max_depth == defaults.max_depth,
            options.centroid_threshold is None ==> hp.centroid_threshold == defaults.centroid_threshold,
            options.collapse_every_n_layers is None ==> hp.collapse_every_n_layers == defaults.collapse_every_n_layers,
            overrides.linear.loss_type is None && options.linear_loss_type is None ==> hp.linear_loss_type == defaults.linear_loss_type,
            overrides.linear.eps is None && options.linear_eps is None ==> hp.linear_eps == defaults.linear_eps,
            overrides.linear.c is None && options.linear_c is None ==> hp.linear_c == defaults.linear_c,
            overrides.linear.weight_threshold is None && options.linear_weight_threshold is None ==> hp.linear_weight_threshold == defaults.linear_weight_threshold,
            overrides.linear.max_iter is None && options.linear_max_iter is None ==> hp.linear_max_iter == defaults.linear_max_iter,
            overrides.cluster.k is None && options.cluster_k is None ==> hp.cluster_k == defaults.cluster_k,
            overrides.cluster.balanced is None && options.cluster_balanced is None ==> hp.cluster_balanced == defaults.cluster_balanced,
            overrides.cluster.eps is None && options.cluster_eps is None ==> hp.cluster_eps == defaults.cluster_eps,
            overrides.cluster.min_size is None && options.cluster_min_size is None ==> hp.cluster_min_size == defaults.cluster_min_size,
            hp.tree_structure_only == options.tree_structure_only,
            hp.train_trees_1_by_1 == options.train_trees_1_by_1,
    {
        let o = options;
        let s = overrides;
        let d = defaults;
        HyperParam {
            n_trees: pick(o.n_trees, d.n_trees),
            min_branch_size: pick(o.min_branch_size, d.min_branch_size),
            max_depth: pick(o.max_depth, d.max_depth),
            centroid_threshold: pick(o.centroid_threshold, d.centroid_threshold),
            collapse_every_n_layers: pick(o.collapse_every_n_layers, d.collapse_every_n_layers),
            linear_loss_type: pick(s.linear.loss_type, pick(o.linear_loss_type, d.linear_loss_type)),
            linear_eps: pick(s.linear.eps, pick(o.linear_eps, d.linear_eps)),
            linear_c: pick(s.linear.c, pick(o.linear_c, d.linear_c)),
            linear_weight_threshold: pick(
                s.linear.weight_threshold,
                pick(o.linear_weight_threshold, d.linear_weight_threshold),
            ),
            linear_max_iter: pick(s.linear.max_iter, pick(o.linear_max_iter, d.linear_max_iter)),
            cluster_k: pick(s.cluster.k, pick(o.cluster_k, d.cluster_k)),
            cluster_balanced: pick(s.cluster.balanced, pick(o.cluster_balanced, d.cluster_balanced)),
            cluster_eps: pick(s.cluster.eps, pick(o.cluster_eps, d.cluster_eps)),
            cluster_min_size: pick(s.cluster.min_size, pick(o.cluster_min_size, d.cluster_min_size)),
            tree_structure_only: o.tree_structure_only,
            train_trees_1_by_1: o.train_trees_1_by_1,
        }
    }
}

/// What a training run uses: its hyper-parameters, and the pool it runs in
/// (`None`: the caller's own threads).
#[derive(Clone, Copy, Debug)]
pub struct TrainingPlan<F> {
    pub hyper_param: HyperParam<F>,
    pub pool: Option<PoolConfig>,
}

/// Decides how a training run goes: with the given hyper-parameters, or the
/// defaults when none are given; in a pool of `n` threads when `n_threads`
/// is `Some(n)`, else on the caller's threads.
pub fn plan_training<F: Copy>(
    hyper_param: Option<&HyperParam<F>>,
    defaults: &HyperParam<F>,
    n_threads: Option<usize>,
) -> (plan: TrainingPlan<F>)
    ensures
        plan.hyper_param == (match hyper_param {
            Some(hp) => *hp,
            None => *defaults,
        }),
        plan.pool == (match n_threads {
            Some(n) => Some(PoolConfig { num_threads: Some(n), stack_size: POOL_STACK_SIZE }),
            None => None::<PoolConfig>,
        }),
{
    let hp = match hyper_param {
        Some(hp) => *hp,
        None => *defaults,
    };
    let pool = match n_threads {
        Some(n) => Some(PoolConfig::with_threads(n)),
        None => None,
    };
    TrainingPlan { hyper_param: hp, pool }
}

/// A hyper-parameter set built with no keyword arguments and no
/// sub-parameter sets is the trainer's defaults, provided the defaults leave
/// both flags off (as the trainer's do).
pub proof fn lemma_unset_options_give_defaults<F>(defaults: HyperParam<F>)
    requires
        !defaults.tree_structure_only,
        !defaults.train_trees_1_by_1,
    ensures
        merged(unset_options::<F>(), no_overrides::<F>(), defaults) == defaults,
{
}

/// A setting given in a sub-parameter set always wins, whatever the keyword
/// argument and the default for it.
pub proof fn lemma_sub_params_take_precedence<F>(o: HyperParamOptions<F>, s: SubParamOverrides<F>, d: HyperParam<F>)
    ensures
        s.linear.eps matches Some(v) ==> merged(o, s, d).linear_eps == v,
        s.linear.c matches Some(v) ==> merged(o, s, d).linear_c == v,
        s.linear.weight_threshold matches Some(v) ==> merged(o, s, d).linear_weight_threshold == v,
        s.linear.max_iter matches Some(v) ==> merged(o, s, d).linear_max_iter == v,
        s.linear.loss_type matches Some(v) ==> merged(o, s, d).linear_loss_type == v,
        s.cluster.k matches Some(v) ==> merged(o, s, d).cluster_k == v,
        s.cluster.balanced matches Some(v) ==> merged(o, s, d).cluster_balanced == v,
        s.cluster.eps matches Some(v) ==> merged(o, s, d).cluster_eps == v,
        s.cluster.min_size matches Some(v) ==> merged(o, s, d).cluster_min_size == v,
{
}

/// A keyword argument that is given wins over the trainer's default, and
/// over nothing else: for a setting that a sub-parameter set may also give,
/// it is used when the sub-parameter set leaves that setting out.
pub proof fn lemma_keyword_beats_default<F>(o: HyperParamOptions<F>, s: SubParamOverrides<F>, d: HyperParam<F>)
    ensures
        o.n_trees matches Some(v) ==> merged(o, s, d).n_trees == v,
        o.min_branch_size matches Some(v) ==> merged(o, s, d).min_branch_size == v,
        o.max_depth matches Some(v) ==> merged(o, s, d).max_depth == v,
        o.centroid_threshold matches Some(v) ==> merged(o, s, d).centroid_threshold == v,
        o.collapse_every_n_layers matches Some(v) ==> merged(o, s, d).collapse_every_n_layers == v,
        o.linear_loss_type matches Some(v) ==> (s.linear.loss_type is None ==> merged(o, s, d).linear_loss_type == v),
        o.linear_eps matches Some(v) ==> (s.linear.eps is None ==> merged(o, s, d).linear_eps == v),
        o.linear_c matches Some(v) ==> (s.linear.c is None ==> merged(o, s, d).linear_c == v),
        o.linear_weight_threshold matches Some(v) ==> (s.linear.weight_threshold is None ==> merged(o, s, d).linear_weight_threshold == v),
        o.linear_max_iter matches Some(v) ==> (s.linear.max_iter is None ==> merged(o, s, d).linear_max_iter == v),
        o.cluster_k matches Some(v) ==> (s.cluster.k is None ==> merged(o, s, d).cluster_k == v),
        o.cluster_balanced matches Some(v) ==> (s.cluster.balanced is None ==> merged(o, s, d).cluster_balanced == v),
        o.cluster_eps matches Some(v) ==> (s.cluster.eps is None ==> merged(o, s, d).cluster_eps == v),
        o.cluster_min_size matches Some(v) ==> (s.cluster.min_size is None ==> merged(o, s, d).cluster_min_size == v),
{
}

/// A setting given neither by a sub-parameter set nor by a keyword argument
/// is the trainer's default.
pub proof fn lemma_defaults_fill_gaps<F>(o: HyperParamOptions<F>, s: SubParamOverrides<F>, d: HyperParam<F>)
    ensures
        o.n_trees is None ==> merged(o, s, d).n_trees == d.n_trees,
        o.min_branch_size is None ==> merged(o, s, d).min_branch_size == d.min_branch_size,
        o.max_depth is None ==> merged(o, s, d).max_depth == d.max_depth,
        o.centroid_threshold is None ==> merged(o, s, d).centroid_threshold == d.centroid_threshold,
        o.collapse_every_n_layers is None ==> merged(o, s, d).collapse_every_n_layers == d.collapse_every_n_layers,
        s.linear.loss_type is None && o.linear_loss_type is None ==> merged(o, s, d).linear_loss_type == d.linear_loss_type,
        s.linear.eps is None && o.linear_eps is None ==> merged(o, s, d).linear_eps == d.linear_eps,
        s.linear.c is None && o.linear_c is None ==> merged(o, s, d).linear_c == d.linear_c,
        s.linear.weight_threshold is None && o.linear_weight_threshold is None ==> merged(o, s, d).linear_weight_threshold == d.linear_weight_threshold,
        s.linear.max_iter is None && o.linear_max_iter is None ==> merged(o, s, d).linear_max_iter == d.linear_max_iter,
        s.cluster.k is None && o.cluster_k is None ==> merged(o, s, d).cluster_k == d.cluster_k,
        s.cluster.balanced is None && o.cluster_balanced is None ==> merged(o, s, d).cluster_balanced == d.cluster_balanced,
        s.cluster.eps is None && o.cluster_eps is None ==> merged(o, s, d).cluster_eps == d.cluster_eps,
        s.cluster.min_size is None && o.cluster_min_size is None ==> merged(o, s, d).cluster_min_size == d.cluster_min_size,
{
}

/// The two flags are the ones passed as keyword arguments, whatever the
/// sub-parameter sets and the defaults.
pub proof fn lemma_flags_from_keywords<F>(o: HyperParamOptions<F>, s: SubParamOverrides<F>, d: HyperParam<F>)
    ensures
        merged(o, s, d).tree_structure_only == o.tree_structure_only,
        merged(o, s, d).train_trees_1_by_1 == o.train_trees_1_by_1,
{
}

} // verus!
