use openpelta::audio::apo::{ApoNumbers, EqualizerApo, WriteRetry, DEFAULT_PATH};
use openpelta::audio::easyeffects::{EasyEffects, EqualizerValue, Scalar};
use openpelta::audio::{
    default_true, eq_backend_error, no_backend_message, select_backend, AudioConfig, BackendKind,
    EqBand, Platform,
};

fn config(enabled: bool, surround: bool) -> AudioConfig {
    AudioConfig {
        bands: vec![
            EqBand { freq_hz: 60, gain_db_bits: 3.5f32.to_bits(), q_bits: 0.7f32.to_bits() },
            EqBand { freq_hz: 8000, gain_db_bits: (-2.0f32).to_bits(), q_bits: 1.41f32.to_bits() },
        ],
        preamp_db_bits: (-3.0f32).to_bits(),
        surround_enabled: surround,
        enabled,
    }
}

fn numbers() -> ApoNumbers {
    ApoNumbers {
        preamp_db: "-3.0".to_string(),
        gain_db: vec!["3.5".to_string(), "-2.0".to_string()],
        q: vec!["0.70".to_string(), "1.41".to_string()],
    }
}

#[test]
fn apo_preset_text() {
    let text = EqualizerApo::render(&config(true, false), &numbers());
    assert_eq!(
        text,
        "Device: ROG Pelta\nPreamp: -3.0 dB\nFilter 1: ON PK Fc 60 Hz Gain 3.5 dB Q 0.70\nFilter 2: ON PK Fc 8000 Hz Gain -2.0 dB Q 1.41\n"
    );
}

#[test]
fn apo_preset_with_surround() {
    let text = EqualizerApo::render(&config(true, true), &numbers());
    assert!(text.ends_with("Q 1.41\nInclude: hesuvi-7.1.txt\n"));
}

#[test]
fn apo_preset_when_eq_is_off_does_nothing() {
    let text = EqualizerApo::render(&config(false, true), &numbers());
    assert_eq!(text, "Device: ROG Pelta\n");
}

#[test]
fn apo_backend_defaults() {
    let apo = EqualizerApo::new();
    assert_eq!(apo.config_dir(), DEFAULT_PATH);
    assert_eq!(apo.config_dir(), r"C:\Program Files\EqualizerAPO\config");
    assert_eq!(apo.name(), "Equalizer APO");
}

#[test]
fn include_line_is_added_once() {
    assert_eq!(EqualizerApo::include_update("").unwrap(), "Include: openpelta.txt\n");
    let first = EqualizerApo::include_update("Device: all\nPreamp: 0 dB\n\n  ").unwrap();
    assert_eq!(first, "Device: all\nPreamp: 0 dB\nInclude: openpelta.txt\n");
    assert!(EqualizerApo::include_update(&first).is_none());
    assert!(EqualizerApo::include_update("x\nInclude: openpelta.txt\ny").is_none());
    assert_eq!(
        EqualizerApo::include_update("Include: openpelta.tx").unwrap(),
        "Include: openpelta.tx\nInclude: openpelta.txt\n"
    );
}

#[test]
fn include_line_after_unicode_whitespace() {
    let t = EqualizerApo::include_update("abc\u{3000}\t\u{A0}").unwrap();
    assert_eq!(t, "abc\nInclude: openpelta.txt\n");
}

#[test]
fn write_retry_schedule() {
    let mut r = WriteRetry::new();
    let mut delays = Vec::new();
    while let Some(d) = r.after_failure(Some(32)) {
        delays.push(d);
    }
    assert_eq!(delays, vec![50, 100, 200, 400, 500]);
    assert_eq!(r.after_failure(Some(32)), None);
}

#[test]
fn write_retry_only_for_sharing_violation() {
    let mut r = WriteRetry::new();
    assert_eq!(r.after_failure(Some(5)), None);
    assert_eq!(r.after_failure(None), None);
    assert_eq!(r.after_failure(Some(32)), Some(50));
}

#[test]
fn easyeffects_paths() {
    let e = EasyEffects::new(Some("/home/ana"));
    assert_eq!(e.preset_dir(), "/home/ana/.config/easyeffects/output");
    assert_eq!(e.preset_path(), "/home/ana/.config/easyeffects/output/openpelta.json");
    assert_eq!(EasyEffects::new(None).preset_dir(), "/tmp/.config/easyeffects/output");
    assert_eq!(EasyEffects::new(Some("/root/")).preset_dir(), "/root/.config/easyeffects/output");
    assert_eq!(EasyEffects::new(Some("")).preset_dir(), ".config/easyeffects/output");
}

#[test]
fn easyeffects_preset_contents() {
    let cfg = config(true, true);
    let p = EasyEffects::preset(&cfg);
    assert_eq!(p.plugins_order, vec!["equalizer", "convolver"]);
    assert_eq!(p.equalizer.len(), 4);
    assert_eq!(p.equalizer[0].0, "input-gain");
    assert!(matches!(p.equalizer[0].1, EqualizerValue::Scalar(Scalar::Float(b)) if b == (-3.0f32).to_bits()));
    assert_eq!(p.equalizer[1].0, "num-bands");
    assert!(matches!(p.equalizer[1].1, EqualizerValue::Scalar(Scalar::Integer(2))));
    assert_eq!(p.equalizer[2].0, "band0");
    assert_eq!(p.equalizer[3].0, "band1");
    match &p.equalizer[3].1 {
        EqualizerValue::Object(f) => {
            assert_eq!(
                f,
                &vec![
                    ("frequency", Scalar::Integer(8000)),
                    ("gain", Scalar::Float((-2.0f32).to_bits())),
                    ("q", Scalar::Float(1.41f32.to_bits())),
                    ("type", Scalar::Text("Bell")),
                    ("mode", Scalar::Text("RLC (BT)")),
                ]
            );
        }
        other => panic!("band1 is not an object: {:?}", other),
    }
    match &p.equalizer[2].1 {
        EqualizerValue::Object(f) => {
            assert_eq!(f[0], ("frequency", Scalar::Integer(60)));
            assert_eq!(f[1], ("gain", Scalar::Float(3.5f32.to_bits())));
        }
        other => panic!("band0 is not an object: {:?}", other),
    }
    let q = EasyEffects::preset(&config(true, false));
    assert_eq!(q.plugins_order, vec!["equalizer"]);
}

#[test]
fn easyeffects_single_band_preset() {
    let cfg = AudioConfig {
        bands: vec![EqBand { freq_hz: 100, gain_db_bits: 3.0f32.to_bits(), q_bits: 1.0f32.to_bits() }],
        preamp_db_bits: (-2.0f32).to_bits(),
        surround_enabled: true,
        enabled: true,
    };
    let p = EasyEffects::preset(&cfg);
    assert_eq!(p.plugins_order, vec!["equalizer", "convolver"]);
    assert_eq!(p.equalizer.len(), 3);
    assert_eq!(p.equalizer[2].0, "band0");
    match &p.equalizer[2].1 {
        EqualizerValue::Object(f) => {
            assert_eq!(f.len(), 5);
            assert_eq!(f[0], ("frequency", Scalar::Integer(100)));
            assert_eq!(f[1], ("gain", Scalar::Float(3.0f32.to_bits())));
            assert_eq!(f[2], ("q", Scalar::Float(1.0f32.to_bits())));
            assert_eq!(f[3], ("type", Scalar::Text("Bell")));
            assert_eq!(f[4], ("mode", Scalar::Text("RLC (BT)")));
        }
        other => panic!("band0 is not an object: {:?}", other),
    }
    let e = EasyEffects::new(Some("/home/u"));
    assert_eq!(e.preset_path(), "/home/u/.config/easyeffects/output/openpelta.json");
}

#[test]
fn backend_selection() {
    assert_eq!(select_backend(Platform::Windows, true, true), Some(BackendKind::EqualizerApo));
    assert_eq!(select_backend(Platform::Windows, false, true), None);
    assert_eq!(select_backend(Platform::Linux, true, true), Some(BackendKind::EasyEffects));
    assert_eq!(select_backend(Platform::Linux, true, false), None);
    assert_eq!(select_backend(Platform::Other, true, true), None);
    assert_eq!(BackendKind::EqualizerApo.name(), "Equalizer APO");
    assert_eq!(BackendKind::EasyEffects.name(), "EasyEffects");
    assert!(default_true());
}

#[test]
fn backend_error_texts() {
    assert_eq!(
        no_backend_message(),
        "No audio EQ backend installed (Equalizer APO / EasyEffects)"
    );
    assert_eq!(eq_backend_error("disk full"), "EQ backend: disk full");
    assert_eq!(
        EqualizerApo::not_installed_message("\"C:\\\\Program Files\\\\EqualizerAPO\\\\config\""),
        "Equalizer APO not installed at \"C:\\\\Program Files\\\\EqualizerAPO\\\\config\""
    );
}
