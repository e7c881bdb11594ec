use dji_referee::gentrans::buff::{self, RobotBuff};
use dji_referee::gentrans::dart::{self, DartInfo};
use dji_referee::gentrans::event::{self, GameEvent};
use dji_referee::gentrans::health::{self, GameRobotHP};
use dji_referee::gentrans::heat::{self, PowerHeat};
use dji_referee::gentrans::hurt::{self, HurtData, Reason};
use dji_referee::gentrans::pos::{self, RobotPos};
use dji_referee::gentrans::result::{self, GameResult, Winner};
use dji_referee::gentrans::states::{self, GameProgress, GameStatus, GameType};
use dji_referee::gentrans::status::{self, RobotStatus};
use dji_referee::gentrans::warning::{self, Level, RefereeWarning};
use dji_referee::{Error, Marshaler};

#[test]
fn buff_test() {
    let buff = RobotBuff {
        recovery_rate: 10,
        colling_value: 200,
        defence_rate: 5,
        vulnerablity_rate: 3,
        attack_rate: 1500,
        remain_energy: 80,
    };

    let mut buf = [0u8; buff::SIZE];
    let sz = buff.marshal(&mut buf).unwrap();
    assert_eq!(sz, buff::SIZE);

    let buff2 = RobotBuff::unmarshal(&buf).unwrap();
    assert_eq!(buff2.recovery_rate(), 10);
    assert_eq!(buff2.colling_value(), 200);
    assert_eq!(buff2.defence_rate(), 5);
    assert_eq!(buff2.vulnerablity_rate(), 3);
    assert_eq!(buff2.attack_rate(), 1500);
    assert_eq!(buff2.remain_energy(), 80);
}

#[test]
fn dart_test() {
    let status = DartInfo {
        remaining_time: 120,
        dart_info: 0x3456,
    };

    let mut buf = [0u8; dart::SIZE + 10];
    let sz = status.marshal(&mut buf).unwrap();
    assert_eq!(sz, dart::SIZE);

    let decoded = DartInfo::unmarshal(&buf[..dart::SIZE]).unwrap();
    assert_eq!(decoded.remaining_time, 120);
    assert_eq!(decoded.dart_info, 0x3456);
}

#[test]
fn event_test() {
    let status = GameEvent {
        event_data: 0x12345678,
    };

    let mut buf = [0u8; event::SIZE + 10];
    let sz = status.marshal(&mut buf).unwrap();
    assert_eq!(sz, event::SIZE);

    let decoded = GameEvent::unmarshal(&buf[..event::SIZE]).unwrap();
    assert_eq!(decoded.event_data, 0x12345678);
}

#[test]
fn health_test() {
    let status = GameRobotHP {
        ally_1: 1000,
        ally_2: 2000,
        ally_3: 3000,
        ally_4: 4000,
        _reserved: 0,
        ally_7: 7000,
        ally_outpost: 8000,
        ally_base: 9000,
    };

    let mut buf = [0u8; health::SIZE + 10];
    let sz = status.marshal(&mut buf).unwrap();
    assert_eq!(sz, health::SIZE);

    let decoded = GameRobotHP::unmarshal(&buf[..health::SIZE]).unwrap();
    assert_eq!(decoded.get_ally1_hp(), 1000);
    assert_eq!(decoded.get_ally2_hp(), 2000);
    assert_eq!(decoded.get_ally3_hp(), 3000);
    assert_eq!(decoded.get_ally4_hp(), 4000);
    assert_eq!(decoded.get_ally7_hp(), 7000);
    assert_eq!(decoded.get_outpost_hp(), 8000);
    assert_eq!(decoded.get_base_hp(), 9000);
}

#[test]
fn heat_test() {
    let status = PowerHeat {
        _reserved_1: 0,
        _reserved_2: 0,
        _reserved_3: 0,
        buffer_energy: 1234,
        shooter_heat_17mm: 2345,
        shooter_heat_42mm: 3456,
    };

    let mut buf = [0u8; heat::SIZE + 10];
    let sz = status.marshal(&mut buf).unwrap();
    assert_eq!(sz, heat::SIZE);

    let decoded = PowerHeat::unmarshal(&buf[..heat::SIZE]).unwrap();
    assert_eq!(decoded.buffer_energy(), 1234);
    assert_eq!(decoded.shooter_heat_17mm(), 2345);
    assert_eq!(decoded.shooter_heat_42mm(), 3456);
}

#[test]
fn hurt_test() {
    let hurt = HurtData {
        armor_id: 3,
        deduction_reason: Reason::ModuleOffline,
    };

    let mut buf = [0u8; hurt::SIZE];
    let sz = hurt.marshal(&mut buf).unwrap();
    assert_eq!(sz, hurt::SIZE);
    assert_eq!(buf[0], 0x13);

    let hurt2 = HurtData::unmarshal(&buf).unwrap();
    assert_eq!(hurt2.armor_id(), 3);
    assert_eq!(hurt2.deduction_reason(), Reason::ModuleOffline);
}

#[test]
fn pos_test() {
    let pos = RobotPos {
        x: 1.0f32.to_bits(),
        y: 2.0f32.to_bits(),
        z: 3.0f32.to_bits(),
    };

    let mut buf = [0u8; pos::SIZE];
    let sz = pos.marshal(&mut buf).unwrap();
    assert_eq!(sz, pos::SIZE);

    let pos2 = RobotPos::unmarshal(&buf).unwrap();
    assert_eq!(f32::from_bits(pos2.pos_x_bits()), 1.0);
    assert_eq!(f32::from_bits(pos2.pos_y_bits()), 2.0);
    assert_eq!(f32::from_bits(pos2.angle_bits()), 3.0);
}

#[test]
fn result_test() {
    let status = GameResult {
        winner: Winner::Blue,
    };

    let mut buf = [0u8; result::SIZE + 10];
    let sz = status.marshal(&mut buf).unwrap();
    assert_eq!(sz, result::SIZE);

    let decoded = GameResult::unmarshal(&buf[..result::SIZE]).unwrap();
    assert_eq!(decoded.winner, Winner::Blue);
}

#[test]
fn states_test() {
    let status = GameStatus {
        game_type: GameType::RMUA,
        game_progress: GameProgress::InProgress,
        remaining_time_s: 1234,
        unix_timestamp: 1672531199,
    };

    let mut buf = [0u8; states::SIZE + 10];
    let sz = status.marshal(&mut buf).unwrap();
    assert_eq!(sz, states::SIZE);

    let decoded = GameStatus::unmarshal(&buf[..states::SIZE]).unwrap();
    assert_eq!(decoded.game_type(), GameType::RMUA);
    assert_eq!(decoded.game_progress(), GameProgress::InProgress);
    assert_eq!(decoded.remaining_time_s(), 1234);
    assert_eq!(decoded.unix_timestamp(), 1672531199);
}

#[test]
fn status_test() {
    let state = RobotStatus {
        robot_id: 3,
        robot_level: 2,
        current_hp: 1500,
        maximum_hp: 2000,
        heat_colling_down: 300,
        shooter_heat_limit: 500,
        chassis_power_limit: 800,
        power_output: 0b0000_0101,
    };

    let mut buf = [0u8; status::SIZE + 10];
    let sz = state.marshal(&mut buf).unwrap();
    assert_eq!(sz, status::SIZE);

    let decoded = RobotStatus::unmarshal(&buf[..status::SIZE]).unwrap();
    assert_eq!(decoded.robot_id, 3);
    assert_eq!(decoded.robot_level, 2);
    assert_eq!(decoded.current_hp, 1500);
    assert_eq!(decoded.maximum_hp, 2000);
    assert_eq!(decoded.heat_colling_down, 300);
    assert_eq!(decoded.shooter_heat_limit, 500);
    assert_eq!(decoded.chassis_power_limit, 800);
    assert_eq!(decoded.gimbal_power_output(), true);
    assert_eq!(decoded.chassis_power_output(), false);
    assert_eq!(decoded.shooter_power_output(), true);
}

#[test]
fn warning_test() {
    let warning = RefereeWarning {
        level: Level::RedCard,
        robot_id: 5,
        count: 2,
    };

    let mut buf = [0u8; warning::SIZE + 10];
    let sz = warning.marshal(&mut buf).unwrap();
    assert_eq!(sz, warning::SIZE);

    let decoded = RefereeWarning::unmarshal(&buf[..warning::SIZE]).unwrap();
    assert_eq!(decoded.level, Level::RedCard);
    assert_eq!(decoded.robot_id, 5);
    assert_eq!(decoded.count, 2);
}

// Exact encodings, little endian.

#[test]
fn buff_exact_bytes() {
    let buff = RobotBuff {
        recovery_rate: 0x11,
        colling_value: 0x2233,
        defence_rate: 0x44,
        vulnerablity_rate: 0x55,
        attack_rate: 0x6677,
        remain_energy: 0x88,
    };
    let mut buf = [0xEEu8; 10];
    assert_eq!(buff.marshal(&mut buf), Ok(8));
    assert_eq!(buf, [0x11, 0x33, 0x22, 0x44, 0x55, 0x77, 0x66, 0x88, 0xEE, 0xEE]);
}

#[test]
fn states_exact_bytes() {
    let status = GameStatus {
        game_type: GameType::RMUL1V1,
        game_progress: GameProgress::Calculating,
        remaining_time_s: 0x0102,
        unix_timestamp: 0x0807_0605_0403_0201,
    };
    let mut buf = [0u8; 11];
    assert_eq!(status.marshal(&mut buf), Ok(11));
    assert_eq!(buf, [0x55, 0x02, 0x01, 0x01, 0x02, 0x03, 0x04, 0x05, 0x06, 0x07, 0x08]);
}

#[test]
fn event_exact_bytes() {
    let ev = GameEvent { event_data: 0x12345678 };
    let mut buf = [0u8; 4];
    assert_eq!(ev.marshal(&mut buf), Ok(4));
    assert_eq!(buf, [0x78, 0x56, 0x34, 0x12]);
}

// Error variants.

#[test]
fn buffer_too_small_errors() {
    let buff = RobotBuff {
        recovery_rate: 1,
        colling_value: 2,
        defence_rate: 3,
        vulnerablity_rate: 4,
        attack_rate: 5,
        remain_energy: 6,
    };
    let mut small = [0u8; 3];
    assert_eq!(buff.marshal(&mut small), Err(Error::BufferTooSmall { need: 8 }));
    assert_eq!(small, [0, 0, 0]);

    let hp = GameRobotHP {
        ally_1: 1,
        ally_2: 2,
        ally_3: 3,
        ally_4: 4,
        _reserved: 0,
        ally_7: 7,
        ally_outpost: 8,
        ally_base: 9,
    };
    let mut small = [0u8; 10];
    assert_eq!(hp.marshal(&mut small), Err(Error::BufferTooSmall { need: 6 }));

    let status = GameStatus {
        game_type: GameType::RMUC,
        game_progress: GameProgress::NotStarted,
        remaining_time_s: 0,
        unix_timestamp: 0,
    };
    let mut small = [0u8; 4];
    assert_eq!(status.marshal(&mut small), Err(Error::BufferTooSmall { need: 7 }));
}

#[test]
fn invalid_data_length_errors() {
    assert_eq!(
        RobotBuff::unmarshal(&[0u8; 7]),
        Err(Error::InvalidDataLength { expected: 8 })
    );
    assert_eq!(
        GameRobotHP::unmarshal(&[0u8; 17]),
        Err(Error::InvalidDataLength { expected: 16 })
    );
    assert_eq!(
        GameResult::unmarshal(&[]),
        Err(Error::InvalidDataLength { expected: 1 })
    );
}

#[test]
fn decode_errors() {
    assert_eq!(GameResult::unmarshal(&[3]), Err(Error::DecodeError { at: 0 }));
    assert_eq!(RefereeWarning::unmarshal(&[0, 1, 2]), Err(Error::DecodeError { at: 0 }));
    assert_eq!(HurtData::unmarshal(&[0x23]), Err(Error::DecodeError { at: 0 }));
    // Game type 0 is unknown.
    assert_eq!(GameStatus::unmarshal(&[0x40, 0, 0, 0, 0, 0, 0, 0, 0, 0, 0]), Err(Error::DecodeError { at: 0 }));
    // Progress 6 is unknown.
    assert_eq!(GameStatus::unmarshal(&[0x61, 0, 0, 0, 0, 0, 0, 0, 0, 0, 0]), Err(Error::DecodeError { at: 0 }));
}

#[test]
fn hurt_reasons_and_masking() {
    let hurt = HurtData {
        armor_id: 0x1F,
        deduction_reason: Reason::StruckByImpact,
    };
    let mut buf = [0u8; 1];
    hurt.marshal(&mut buf).unwrap();
    assert_eq!(buf[0], 0x5F);
    let back = HurtData::unmarshal(&buf).unwrap();
    assert_eq!(back.armor_id(), 0x0F);
    assert_eq!(back.deduction_reason(), Reason::StruckByImpact);
    let hit = HurtData::unmarshal(&[0x02]).unwrap();
    assert_eq!(hit.deduction_reason(), Reason::HitByProjectile);
    assert_eq!(hit.armor_id(), 2);
}

#[test]
fn codes_of_enums() {
    assert_eq!(Reason::StruckByImpact.code(), 5);
    assert_eq!(Winner::Red.code(), 1);
    assert_eq!(Level::Loss.code(), 4);
    assert_eq!(GameType::RMUL3V3.code(), 4);
    assert_eq!(GameProgress::CountDown5s.code(), 3);
}

#[test]
fn status_power_bits() {
    let mut state = RobotStatus {
        robot_id: 0,
        robot_level: 0,
        current_hp: 0,
        maximum_hp: 0,
        heat_colling_down: 0,
        shooter_heat_limit: 0,
        chassis_power_limit: 0,
        power_output: 0b0000_0010,
    };
    assert!(!state.gimbal_power_output());
    assert!(state.chassis_power_output());
    assert!(!state.shooter_power_output());
    state.power_output = 0b1111_1000;
    assert!(!state.gimbal_power_output());
    assert!(!state.chassis_power_output());
    assert!(!state.shooter_power_output());
}
