use scram_hpc_rs::errors::ErrorKind;
use scram_hpc_rs::errors::FetchError;
use scram_hpc_rs::inference::validate_model_path;
use scram_hpc_rs::inference::InferenceEngine;
use scram_hpc_rs::timing::sample_delay_ms;
use scram_hpc_rs::timing::sample_settle;
use scram_hpc_rs::timing::sample_warm_up;
use scram_hpc_rs::timing::DelayConfig;

#[test]
fn delays_stay_inside_their_windows() {
    // Repeated sampling: warm-up in [500, 1500), settle in [1000, 3000).
    let cfg = DelayConfig::default();
    for _ in 0..200 {
        let w = sample_warm_up(&cfg);
        assert!((500..1500).contains(&w));
        let s = sample_settle(&cfg);
        assert!((1000..3000).contains(&s));
        let d = sample_delay_ms(42, 43);
        assert_eq!(d, 42);
    }
}

#[test]
fn default_windows_match_the_design() {
    let cfg = DelayConfig::default();
    assert_eq!((cfg.warm_lo, cfg.warm_hi), (500, 1500));
    assert_eq!((cfg.settle_lo, cfg.settle_hi), (1000, 3000));
    let custom = DelayConfig::new(1, 2, 3, 4);
    assert_eq!((custom.warm_lo, custom.warm_hi, custom.settle_lo, custom.settle_hi), (1, 2, 3, 4));
}

#[test]
fn extract_is_deterministic() {
    // The placeholder maps every feature vector, including the same one
    // twice, to the fixed scores 0.99, 0.1, 0.5 — carried as hundredths.
    let engine = InferenceEngine::new();
    let features: Vec<i64> = vec![1000, 2000, 3000]; // 1.0, 2.0, 3.0 in thousandths
    let first = engine.extract(&features).unwrap();
    let second = engine.extract(&features).unwrap();
    assert_eq!(first, second);
    assert_eq!(first, vec![99, 10, 50]);

    let as_floats: Vec<f32> = first.iter().map(|c| *c as f32 / 100.0).collect();
    assert_eq!(as_floats, vec![0.99_f32, 0.1, 0.5]);
}

#[test]
fn extract_ignores_its_input() {
    let engine = InferenceEngine::new();
    assert_eq!(engine.extract(&Vec::new()).unwrap(), vec![99, 10, 50]);
    assert_eq!(engine.extract(&vec![-7]).unwrap(), vec![99, 10, 50]);
}

#[test]
fn empty_model_path_is_a_load_error() {
    assert_eq!(validate_model_path("").unwrap_err().kind(), ErrorKind::ModelLoad);
    assert!(validate_model_path("model.onnx").is_ok());
}

#[test]
fn error_kinds_and_messages() {
    let cases = vec![
        (FetchError::BrowserLaunch(String::from("a")), ErrorKind::BrowserLaunch),
        (FetchError::Navigation(String::from("b")), ErrorKind::Navigation),
        (FetchError::Render(String::from("c")), ErrorKind::Render),
        (FetchError::SessionClosed(String::from("d")), ErrorKind::SessionClosed),
        (FetchError::Transport(String::from("e")), ErrorKind::Transport),
        (FetchError::InvalidHeader(String::from("f")), ErrorKind::InvalidHeader),
        (FetchError::Decode(String::from("g")), ErrorKind::Decode),
        (FetchError::ModelLoad(String::from("h")), ErrorKind::ModelLoad),
        (FetchError::Inference(String::from("i")), ErrorKind::Inference),
    ];
    for (err, kind) in &cases {
        assert_eq!(err.kind(), *kind);
        let copy = err.duplicate();
        assert_eq!(copy.kind(), *kind);
        assert_eq!(copy.message(), err.message());
    }
    assert_eq!(FetchError::Transport(String::from("timed out")).message(), "timed out");
}
