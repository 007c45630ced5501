use omikuji_python::hyper_param::plan_training;
use omikuji_python::hyper_param::ClusterOverrides;
use omikuji_python::hyper_param::HyperParam;
use omikuji_python::hyper_param::HyperParamOptions;
use omikuji_python::hyper_param::LinearOverrides;
use omikuji_python::hyper_param::LossType;
use omikuji_python::hyper_param::SubParamOverrides;
use omikuji_python::pool::PoolConfig;

fn trainer_defaults() -> HyperParam<f32> {
    HyperParam {
        n_trees: 3,
        min_branch_size: 100,
        max_depth: 20,
        centroid_threshold: 0.0,
        collapse_every_n_layers: 0,
        linear_loss_type: LossType::Hinge,
        linear_eps: 0.1,
        linear_c: 1.0,
        linear_weight_threshold: 0.1,
        linear_max_iter: 20,
        cluster_k: 2,
        cluster_balanced: true,
        cluster_eps: 0.0001,
        cluster_min_size: 2,
        tree_structure_only: false,
        train_trees_1_by_1: false,
    }
}

fn same(a: &HyperParam<f32>, b: &HyperParam<f32>) -> bool {
    a.n_trees == b.n_trees
        && a.min_branch_size == b.min_branch_size
        && a.max_depth == b.max_depth
        && a.centroid_threshold == b.centroid_threshold
        && a.collapse_every_n_layers == b.collapse_every_n_layers
        && a.linear_loss_type == b.linear_loss_type
        && a.linear_eps == b.linear_eps
        && a.linear_c == b.linear_c
        && a.linear_weight_threshold == b.linear_weight_threshold
        && a.linear_max_iter == b.linear_max_iter
        && a.cluster_k == b.cluster_k
        && a.cluster_balanced == b.cluster_balanced
        && a.cluster_eps == b.cluster_eps
        && a.cluster_min_size == b.cluster_min_size
        && a.tree_structure_only == b.tree_structure_only
        && a.train_trees_1_by_1 == b.train_trees_1_by_1
}

#[test]
fn loss_type_repr() {
    assert_eq!(LossType::Hinge.__repr__(), "LossType.Hinge");
    assert_eq!(LossType::Log.__repr__(), "LossType.Log");
}

#[test]
fn no_arguments_give_defaults() {
    let d = trainer_defaults();
    let hp = HyperParam::new(HyperParamOptions::unset(), &SubParamOverrides::none(), &d);
    assert!(same(&hp, &d));
}

#[test]
fn keyword_arguments_replace_defaults() {
    let d = trainer_defaults();
    let mut o = HyperParamOptions::unset();
    o.n_trees = Some(5);
    o.centroid_threshold = Some(0.25);
    o.linear_loss_type = Some(LossType::Log);
    o.cluster_balanced = Some(false);
    o.tree_structure_only = true;
    let hp = HyperParam::new(o, &SubParamOverrides::none(), &d);
    let mut expected = d;
    expected.n_trees = 5;
    expected.centroid_threshold = 0.25;
    expected.linear_loss_type = LossType::Log;
    expected.cluster_balanced = false;
    expected.tree_structure_only = true;
    assert!(same(&hp, &expected));
}

#[test]
fn sub_parameters_win_over_keyword_arguments() {
    let d = trainer_defaults();
    let mut o = HyperParamOptions::unset();
    o.linear_eps = Some(0.5);
    o.linear_c = Some(2.0);
    o.cluster_k = Some(8);
    o.cluster_min_size = Some(4);
    let s = SubParamOverrides {
        linear: LinearOverrides {
            eps: Some(0.2),
            c: None,
            weight_threshold: Some(0.3),
            max_iter: Some(50),
            loss_type: Some(LossType::Log),
        },
        cluster: ClusterOverrides { k: Some(16), balanced: Some(false), eps: Some(0.01), min_size: None },
    };
    let hp = HyperParam::new(o, &s, &d);
    let mut expected = d;
    expected.linear_eps = 0.2;
    expected.linear_c = 2.0;
    expected.linear_weight_threshold = 0.3;
    expected.linear_max_iter = 50;
    expected.linear_loss_type = LossType::Log;
    expected.cluster_k = 16;
    expected.cluster_balanced = false;
    expected.cluster_eps = 0.01;
    expected.cluster_min_size = 4;
    assert!(same(&hp, &expected));
}

#[test]
fn training_uses_given_or_default_parameters() {
    let d = trainer_defaults();
    let mut given = d;
    given.n_trees = 7;
    let plan = plan_training(Some(&given), &d, Some(2));
    assert!(same(&plan.hyper_param, &given));
    assert_eq!(plan.pool, Some(PoolConfig::with_threads(2)));
    let plan = plan_training(None, &d, None);
    assert!(same(&plan.hyper_param, &d));
    assert_eq!(plan.pool, None);
}
