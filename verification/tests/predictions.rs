use omikuji_python::predictions::take_top;
use omikuji_python::predictions::PredictOptions;
use omikuji_python::predictions::DEFAULT_BEAM_SIZE;
use omikuji_python::predictions::DEFAULT_TOP_K;

#[test]
fn options_default_to_ten() {
    let opts = PredictOptions::resolve(None, None);
    assert_eq!(opts, PredictOptions { beam_size: 10, top_k: 10 });
    assert_eq!(DEFAULT_BEAM_SIZE, 10);
    assert_eq!(DEFAULT_TOP_K, 10);
}

#[test]
fn options_keep_given_values() {
    let opts = PredictOptions::resolve(Some(3), Some(0));
    assert_eq!(opts, PredictOptions { beam_size: 3, top_k: 0 });
    let opts = PredictOptions::resolve(None, Some(25));
    assert_eq!(opts, PredictOptions { beam_size: 10, top_k: 25 });
}

#[test]
fn take_top_keeps_prefix() {
    let ranked: Vec<(u32, f32)> = vec![(4, 0.9), (1, 0.5), (7, 0.2), (2, 0.1)];
    assert_eq!(take_top(ranked, 2), vec![(4, 0.9), (1, 0.5)]);
}

#[test]
fn take_top_of_short_list_keeps_all() {
    let ranked: Vec<(u32, f32)> = vec![(4, 0.9), (1, 0.5)];
    assert_eq!(take_top(ranked.clone(), 10), ranked);
}

#[test]
fn take_top_zero_is_empty() {
    let ranked: Vec<(u32, f32)> = vec![(4, 0.9)];
    assert_eq!(take_top(ranked, 0), Vec::new());
}
