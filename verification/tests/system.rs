use dji_referee::cell::MemCell;
use dji_referee::motor::dajiang::{dji_feedback, CanFrame};
use dji_referee::motor::damiao::damiao_feedback;
use dji_referee::motor::{DaMiaoCtrl, DaMiaoMotor, DaMiaoState, DjiCtrl, DjiMotor};
use dji_referee::tasks::bxcan::{can1_action, CanId, CanRxAction};
use dji_referee::system::health::{health_tick, offline};
use dji_referee::system::{Device, Health, HeartBeat, SysMode, SysStatus, Watch};
use dji_referee::tasks::blinky::{blinky_step, color_wheel};

#[test]
fn heartbeat_feed_tick_kill() {
    let mut hb = HeartBeat::new();
    assert!(!hb.check());
    assert_eq!(hb.ttl(), 0);
    hb.feed(2);
    assert!(hb.check());
    assert_eq!(hb.ttl(), 2);
    assert!(hb.tick());
    assert_eq!(hb.ttl(), 1);
    assert!(hb.check());
    // The counter reaches zero: the device goes offline.
    assert!(!hb.tick());
    assert!(!hb.check());
    assert_eq!(hb.ttl(), 0);
    assert!(!hb.tick());
    assert_eq!(hb.ttl(), 0);
    hb.feed(1);
    assert!(!hb.tick());
    assert!(!hb.check());
    hb.feed(0);
    assert!(!hb.tick());
    assert!(!hb.check());
    hb.feed(5);
    hb.kill();
    assert!(!hb.check());
    assert_eq!(hb.ttl(), 0);
    hb.feed(-128);
    assert!(!hb.tick());
    assert_eq!(hb.ttl(), 0);
}

#[test]
fn sys_mode_set_get() {
    let mut status = SysStatus::new();
    assert_eq!(SysMode::get(&status), SysMode::Boot);
    SysMode::Normal.set(&mut status);
    assert_eq!(SysMode::get(&status), SysMode::Normal);
    SysMode::Error.set(&mut status);
    assert_eq!(status.bits(), -1);
    assert_eq!(SysMode::get(&status), SysMode::Error);
    assert_eq!(SysMode::get(&SysStatus::from_bits(42)), SysMode::Error);
    assert_eq!(SysMode::from_bits(1), SysMode::Normal);
    assert_eq!(SysMode::Boot.into_bits(), 0);
}

#[test]
fn device_watch() {
    assert!(Watch::new(vec![Device::Placeholder, Device::Placeholder]).is_none());
    let mut watch = Watch::new(vec![Device::Placeholder]).unwrap();
    assert_eq!(watch.len(), 1);
    let d = Device::Placeholder;
    assert_eq!(Device::interval(), 100);
    assert!(!d.check(&watch));
    assert_eq!(d.display().format(&watch), Health::Offline);
    d.feed(&mut watch);
    assert!(d.check(&watch));
    assert_eq!(d.display().format(&watch), Health::Online { ttl: 5 });
    for _ in 0..4 {
        assert!(d.tick(&mut watch));
    }
    assert_eq!(d.display().format(&watch), Health::Online { ttl: 1 });
    assert!(!d.tick(&mut watch));
    assert_eq!(d.display().format(&watch), Health::Offline);
    assert!(!d.check(&watch));
    d.feed(&mut watch);
    d.kill(&mut watch);
    assert!(!d.check(&watch));

    let empty = Watch::new(vec![]).unwrap();
    assert_eq!(d.display().format(&empty), Health::NoHeartbeat);
}

#[test]
fn health_round() {
    let mut watch = Watch::new(vec![Device::Placeholder]).unwrap();
    let mut status = SysStatus::new();
    SysMode::Normal.set(&mut status);
    Device::Placeholder.feed(&mut watch);
    health_tick(&mut watch, &mut status);
    assert_eq!(SysMode::get(&status), SysMode::Normal);
    assert!(offline(&watch).is_empty());
    for _ in 0..3 {
        health_tick(&mut watch, &mut status);
    }
    assert_eq!(SysMode::get(&status), SysMode::Normal);
    // The fifth tick after feeding (500 ms) takes the device offline.
    health_tick(&mut watch, &mut status);
    assert_eq!(SysMode::get(&status), SysMode::Error);
    assert_eq!(offline(&watch), vec![Device::Placeholder]);
}

#[test]
fn color_wheel_values() {
    assert_eq!(color_wheel(0), (255, 0, 0));
    assert_eq!(color_wheel(255), (255, 255, 0));
    assert_eq!(color_wheel(256), (255, 255, 0));
    assert_eq!(color_wheel(512 + 10), (0, 255, 10));
    assert_eq!(color_wheel(768 + 5), (0, 250, 255));
    assert_eq!(color_wheel(1024 + 128), (128, 0, 255));
    assert_eq!(color_wheel(1535), (255, 0, 0));
    assert_eq!(blinky_step(1535), ((255, 0, 0), 0));
    assert_eq!(blinky_step(7), ((255, 7, 0), 8));
}

#[test]
fn mem_cell() {
    let mut cell: MemCell<u32> = MemCell::uninit();
    assert!(cell.get().is_none());
    {
        let v = cell.init(7);
        assert_eq!(*v, 7);
        *v = 9;
    }
    assert_eq!(cell.get(), Some(&9));
    cell.invalidate();
    assert!(cell.get().is_none());
    let kept = MemCell::retained(dji_referee::cell::MAGIC, 11u32);
    assert_eq!(kept.get(), Some(&11));
    let stale = MemCell::retained(dji_referee::cell::MAGIC ^ 1, 11u32);
    assert!(stale.get().is_none());
}

struct Gimbal;

impl DjiCtrl for Gimbal {
    const CANID: u16 = 0x1FF;
}

#[test]
fn dji_set_current() {
    let f: CanFrame = Gimbal::set_cur((1, -1, 0x1234, -32768));
    assert_eq!(f.id, 0x1FF);
    assert_eq!(f.data, vec![0x00, 0x01, 0xFF, 0xFF, 0x12, 0x34, 0x80, 0x00]);
}

struct Joint(u64);

impl DaMiaoMotor for Joint {
    fn get_raw(&self) -> u64 {
        self.0
    }
}

impl DaMiaoCtrl for Joint {
    const CANID: u16 = 0x203;
}

#[test]
fn damiao_state_codes() {
    assert_eq!(Joint(0x13).id(), 3);
    assert_eq!(Joint(0x13).sta(), DaMiaoState::Enabled);
    assert_eq!(Joint(0x0A).sta(), DaMiaoState::Disabled);
    assert_eq!(Joint(0xB2).sta(), DaMiaoState::OverTempMOS);
    assert_eq!(Joint(0xE0).sta(), DaMiaoState::OverLoad);
    assert_eq!(Joint(0x50).sta(), DaMiaoState::IncorrectID);
}

#[test]
fn damiao_frames() {
    let j = Joint(0);
    let fb = j.get_fb();
    assert_eq!(fb.id, 0x7FF);
    assert_eq!(fb.data, vec![0x03, 0x02, 0xCC, 0x00]);
    let en = j.enable();
    assert_eq!(en.id, 0x303);
    assert_eq!(en.data, vec![0xFF, 0xFF, 0xFF, 0xFF, 0xFF, 0xFF, 0xFF, 0xFC]);
    assert_eq!(j.disable().data[7], 0xFD);
    assert_eq!(j.clr_err().data[7], 0xFB);
    let t = j.enable_torque();
    assert_eq!(t.id, 0x203);
    assert_eq!(t.data[7], 0xFC);
    assert_eq!(j.disable_torque().data[7], 0xFD);
    assert_eq!(j.clr_err_torque().id, 0x203);
}

struct Wheel(u64);

impl DjiMotor for Wheel {
    const MSTID: u16 = 0x201;

    fn get_raw(&self) -> u64 {
        self.0
    }
}

#[test]
fn dji_motor_fields() {
    let data = [0x1F, 0xFF, 0xFF, 0x38, 0x01, 0x00, 0x2A, 0x00];
    let raw = dji_feedback(&data).unwrap();
    assert_eq!(raw, u64::from_le_bytes(data));
    let w = Wheel(raw);
    assert_eq!(w.pos_raw(), 8191);
    assert_eq!(w.vel_raw(), -200);
    assert_eq!(w.tor_raw(), 256);
    assert_eq!(w.temp(), 42);
    assert_eq!(dji_feedback(&data[..7]), None);
    assert_eq!(dji_feedback(&[]), None);
}

#[test]
fn damiao_motor_fields() {
    let data = [0x13, 0x80, 0x00, 0x7F, 0xF8, 0x00, 0x1E, 0x28];
    let raw = damiao_feedback(&data).unwrap();
    let j = Joint(raw);
    assert_eq!(j.id(), 3);
    assert_eq!(j.sta(), DaMiaoState::Enabled);
    assert_eq!(j.pos_raw(), 0x8000);
    assert_eq!(j.vel_raw(), 2047);
    assert_eq!(j.tor_raw(), 2048);
    assert_eq!(j.temp_mos(), 30);
    assert_eq!(j.temp_rot(), 40);
    assert_eq!(damiao_feedback(&[0x13, 0x00, 0x55, 0, 0, 0, 0, 0]), None);
    assert!(damiao_feedback(&[0x13, 0x00, 0x56, 0, 0, 0, 0, 0]).is_some());
    assert_eq!(damiao_feedback(&data[..4]), None);
}

#[test]
fn damiao_set_points() {
    let j = Joint(0);
    let pv = j.set_pv_bits(1.0f32.to_bits(), 2.0f32.to_bits());
    assert_eq!(pv.id, 0x303);
    assert_eq!(pv.data, vec![0x00, 0x00, 0x80, 0x3F, 0x00, 0x00, 0x00, 0x40]);
    let t = j.set_torque_raw(0x7FF);
    assert_eq!(t.id, 0x203);
    assert_eq!(t.data, vec![0x7F, 0xFF, 0x7F, 0xF0, 0x00, 0x00, 0x07, 0xFF]);
    assert_eq!(j.set_torque_raw(0xFFFF).data[6..], [0x0F, 0xFF]);
}

#[test]
fn can1_dispatch() {
    let data = [0x1F, 0xFF, 0xFF, 0x38, 0x01, 0x00, 0x2A, 0x00];
    assert_eq!(
        can1_action(CanId::Standard(0x201), &data, 0x201),
        CanRxAction::Feedback(u64::from_le_bytes(data))
    );
    assert_eq!(can1_action(CanId::Standard(0x201), &data[..4], 0x201), CanRxAction::BadFeedback);
    assert_eq!(can1_action(CanId::Standard(0x202), &data, 0x201), CanRxAction::Log);
    assert_eq!(can1_action(CanId::Extended(0x201), &data, 0x201), CanRxAction::Log);
}
