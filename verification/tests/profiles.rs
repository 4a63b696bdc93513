use openpelta::audio::AudioConfig;
use openpelta::firmware::ota::flash;
use openpelta::hid::{rgb_request, Rgb, RgbMode, RgbRequest};
use openpelta::profiles::{default_latency, DeviceCommand, Profile, ProfileStep, ProfileStore};
use openpelta::rgb::RgbState;

#[test]
fn rgb_state_default_is_static_red() {
    let s = RgbState::default();
    assert_eq!(s.mode, RgbMode::Static);
    assert_eq!(s.color, Rgb { r: 255, g: 0, b: 0 });
    assert_eq!(s.speed, 50);
}

#[test]
fn default_latency_is_100() {
    assert_eq!(default_latency(), 100);
}

#[test]
fn profile_device_steps() {
    let p = Profile {
        name: "FPS".to_string(),
        rgb: RgbState { mode: RgbMode::Breathing, color: Rgb { r: 1, g: 2, b: 3 }, speed: 70 },
        eq: AudioConfig { bands: vec![], preamp_db_bits: 0, surround_enabled: false, enabled: true },
        nr: true,
        latency_ms: 55,
        app_matches: vec!["lol.exe".to_string()],
    };
    assert_eq!(
        p.device_steps(),
        vec![
            ProfileStep {
                command: DeviceCommand::SetRgb {
                    mode: RgbMode::Breathing,
                    color: Rgb { r: 1, g: 2, b: 3 },
                    intensity: 70,
                },
                stop_on_error: true,
            },
            ProfileStep { command: DeviceCommand::SetNoiseReduction(true), stop_on_error: true },
            ProfileStep { command: DeviceCommand::SetLatencyMode(55), stop_on_error: false },
        ]
    );
}

#[test]
fn profile_store_path() {
    assert_eq!(
        ProfileStore::new(Some("/home/ana")).path(),
        "/home/ana/.config/openpelta/profiles.toml"
    );
    assert_eq!(ProfileStore::new(None).path(), "/tmp/.config/openpelta/profiles.toml");
}

#[test]
fn firmware_flash_is_not_implemented() {
    assert_eq!(flash("/tmp/fw.bin").unwrap_err(), "Firmware OTA not implemented");
}

#[test]
fn default_latency_is_accepted_by_the_device() {
    assert!(openpelta::hid::pelta::latency_mode_frame(default_latency()).is_ok());
}

#[test]
fn every_rgb_mode_yields_an_accepted_command() {
    let c = Rgb { r: 9, g: 8, b: 7 };
    for m in [RgbMode::Off, RgbMode::Static, RgbMode::Breathing, RgbMode::Strobe, RgbMode::Rainbow] {
        match rgb_request(m, c, 50) {
            RgbRequest::LightEffect { mode, intensity, color } => {
                assert!(openpelta::hid::pelta::light_effect_frame(mode, intensity, color).is_ok())
            }
            RgbRequest::LedColor(_) => {}
        }
    }
}
