use openpelta::hid::pelta::{
    Query, QueryAction, DRAIN_TIMEOUT_MS, MAX_REPLY_READS, REPLY_TIMEOUT_MS,
};
use openpelta::hid::protocol::{build_frame, OP_GET_LATENCY_MODE, OP_GET_POWER_INFO};
use openpelta::hid::{DeviceError, PeltaDevice, PowerInfo, Rgb, RgbMode, RgbRequest};
use std::cell::RefCell;
use std::sync::Mutex;

fn expect_read(a: QueryAction, timeout: i32) {
    match a {
        QueryAction::Read { timeout_ms } => assert_eq!(timeout_ms, timeout),
        other => panic!("expected a read, got {:?}", other),
    }
}

#[test]
fn query_drains_writes_then_matches() {
    let (mut q, a) = Query::new(&OP_GET_LATENCY_MODE);
    expect_read(a, DRAIN_TIMEOUT_MS);
    let stale = build_frame(&[0x12, 0x07], &[5]);
    expect_read(q.on_read(65, &stale), DRAIN_TIMEOUT_MS);
    let nothing = [0u8; 65];
    match q.on_read(0, &nothing) {
        QueryAction::Write(f) => assert_eq!(f, build_frame(&OP_GET_LATENCY_MODE, &[])),
        other => panic!("expected the request, got {:?}", other),
    }
    expect_read(q.on_written(), REPLY_TIMEOUT_MS);
    expect_read(q.on_read(65, &stale), REPLY_TIMEOUT_MS);
    let reply = build_frame(&OP_GET_LATENCY_MODE, &[0x64]);
    match q.on_read(65, &reply) {
        QueryAction::Finish(Ok(p)) => {
            assert_eq!(p.len(), 64);
            assert_eq!(p[4], 0x64);
        }
        other => panic!("expected the payload, got {:?}", other),
    }
    assert!(q.is_finished());
}

#[test]
fn query_gives_up_after_eight_foreign_replies() {
    let (mut q, _) = Query::new(&OP_GET_POWER_INFO);
    let nothing = [0u8; 65];
    let _ = q.on_read(0, &nothing);
    let _ = q.on_written();
    let foreign = build_frame(&[0x12, 0x08], &[1]);
    for _ in 0..(MAX_REPLY_READS - 1) {
        expect_read(q.on_read(65, &foreign), REPLY_TIMEOUT_MS);
    }
    match q.on_read(65, &foreign) {
        QueryAction::Finish(Err(e)) => {
            assert_eq!(e.message(), "no matching response for opcode [12, 07]")
        }
        other => panic!("expected the failure, got {:?}", other),
    }
    assert!(q.is_finished());
}

#[test]
fn query_fails_when_no_reply_arrives() {
    let (mut q, _) = Query::new(&OP_GET_POWER_INFO);
    let nothing = [0u8; 65];
    let _ = q.on_read(0, &nothing);
    let _ = q.on_written();
    assert!(matches!(
        q.on_read(0, &nothing),
        QueryAction::Finish(Err(DeviceError::NoMatchingResponse(_)))
    ));
}

#[test]
fn query_ends_on_transport_error() {
    let (mut q, _) = Query::new(&OP_GET_POWER_INFO);
    match q.on_error(DeviceError::Transport("unplugged".to_string())) {
        QueryAction::Finish(Err(DeviceError::Transport(m))) => assert_eq!(m, "unplugged"),
        other => panic!("{:?}", other),
    }
    assert!(q.is_finished());
}

struct Recorder {
    calls: Mutex<RefCell<Vec<String>>>,
}

impl Recorder {
    fn log(&self, s: String) -> Result<(), DeviceError> {
        self.calls.lock().unwrap().borrow_mut().push(s);
        Ok(())
    }
}

impl PeltaDevice for Recorder {
    // The recorder accepts every RGB command.
    fn rgb_outcome(&self, _request: RgbRequest, r: Result<(), DeviceError>) -> bool { r.is_ok() }
    fn firmware_version(&self) -> Result<String, DeviceError> { Ok(String::new()) }
    fn power_info(&self) -> Result<PowerInfo, DeviceError> {
        Ok(PowerInfo { percent: 0, charging: false, raw: [0; 4] })
    }
    fn headset_present(&self) -> Result<bool, DeviceError> { Ok(true) }
    fn led_enabled(&self) -> Result<bool, DeviceError> { Ok(true) }
    fn noise_reduction(&self) -> Result<bool, DeviceError> { Ok(false) }
    fn latency_mode(&self) -> Result<u8, DeviceError> { Ok(100) }
    fn sidetone_volume(&self) -> Result<u8, DeviceError> { Ok(10) }
    fn sidetone_enabled(&self) -> Result<bool, DeviceError> { Ok(false) }
    fn set_led_color(&self, c: Rgb) -> Result<(), DeviceError> {
        self.log(format!("color {} {} {}", c.r, c.g, c.b))
    }
    fn set_light_effect(&self, mode: u8, intensity: u8, c: Rgb) -> Result<(), DeviceError> {
        self.log(format!("effect {} {} {} {} {}", mode, intensity, c.r, c.g, c.b))
    }
    fn set_noise_reduction(&self, on: bool) -> Result<(), DeviceError> { self.log(format!("nr {}", on)) }
    fn set_latency_mode(&self, v: u8) -> Result<(), DeviceError> { self.log(format!("latency {}", v)) }
    fn set_demo_mode(&self, on: bool) -> Result<(), DeviceError> { self.log(format!("demo {}", on)) }
}

#[test]
fn set_rgb_dispatches_through_the_device() {
    let d = Recorder { calls: Mutex::new(RefCell::new(Vec::new())) };
    let c = Rgb { r: 0, g: 255, b: 255 };
    d.set_rgb(RgbMode::Off, c, 50).unwrap();
    d.set_rgb(RgbMode::Static, c, 50).unwrap();
    d.set_rgb(RgbMode::Breathing, c, 50).unwrap();
    d.set_rgb(RgbMode::Strobe, c, 50).unwrap();
    d.set_rgb(RgbMode::Rainbow, c, 50).unwrap();
    let calls = d.calls.lock().unwrap().borrow().clone();
    assert_eq!(
        calls,
        vec![
            "color 0 0 0",
            "color 0 255 255",
            "effect 2 50 0 255 255",
            "effect 3 50 0 255 255",
            "effect 4 50 0 255 255",
        ]
    );
}
