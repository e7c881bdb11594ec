use dji_referee::gentrans;
use dji_referee::pictrans::{custom, remote, Custom2Robot, RemoteControl};
use dji_referee::ui::common::{self, AsCommand, Command, Interaction};
use dji_referee::ui::delete_layer::{DeleteLayer, DeleteType};
use dji_referee::ui::draw_figure::{Color, FigureType, IaFigure, Operate};
use dji_referee::{Error, Marshaler};

#[test]
fn lib_test_command_id() {
    assert_eq!(gentrans::states::GameStatus::CMD_ID, 0x0001);
    assert_eq!(gentrans::result::GameResult::CMD_ID, 0x0002);
    assert_eq!(gentrans::health::GameRobotHP::CMD_ID, 0x0003);
    assert_eq!(gentrans::event::GameEvent::CMD_ID, 0x0101);
    assert_eq!(gentrans::warning::RefereeWarning::CMD_ID, 0x0104);
    assert_eq!(gentrans::dart::DartInfo::CMD_ID, 0x0105);
    assert_eq!(gentrans::status::RobotStatus::CMD_ID, 0x0201);
    assert_eq!(gentrans::heat::PowerHeat::CMD_ID, 0x0202);
    assert_eq!(gentrans::pos::RobotPos::CMD_ID, 0x0203);
    assert_eq!(gentrans::buff::RobotBuff::CMD_ID, 0x0204);
    assert_eq!(gentrans::hurt::HurtData::CMD_ID, 0x0206);

    assert_eq!(custom::Custom2Robot::CMD_ID, 0x0302);
    assert_eq!(remote::RemoteControl::CMD_ID, 0x0304);

    assert_eq!(common::Interaction::<0>::CMD_ID, 0x0301);
}

#[test]
fn remote_test() {
    let rc = RemoteControl {
        mouse_x: 100,
        mouse_y: -100,
        mouse_z: 50,
        left_button: true,
        right_button: false,
        keyboard_v: 0b0000_0000_0001_1010,
        _reserved: 0,
    };

    let mut buf = [0u8; 20];
    let sz = rc.marshal(&mut buf).unwrap();
    assert_eq!(sz, 12);

    let decoded = RemoteControl::unmarshal(&buf[..12]).unwrap();
    assert_eq!(decoded.mouse_vx(), 100);
    assert_eq!(decoded.mouse_vy(), -100);
    assert_eq!(decoded.mouse_vz(), 50);
    assert_eq!(decoded.left_button_pressed(), true);
    assert_eq!(decoded.right_button_pressed(), false);
    assert_eq!(decoded.keyboard_w(), false);
    assert_eq!(decoded.keyboard_s(), true);
    assert_eq!(decoded.keyboard_a(), false);
    assert_eq!(decoded.keyboard_d(), true);
    assert_eq!(decoded.keyboard_shift(), true);
    assert_eq!(decoded.keyboard_ctrl(), false);
    assert_eq!(decoded.keyboard_q(), false);
    assert_eq!(decoded.keyboard_e(), false);
    assert_eq!(decoded.keyboard_r(), false);
    assert_eq!(decoded.keyboard_f(), false);
    assert_eq!(decoded.keyboard_g(), false);
    assert_eq!(decoded.keyboard_z(), false);
    assert_eq!(decoded.keyboard_x(), false);
    assert_eq!(decoded.keyboard_c(), false);
    assert_eq!(decoded.keyboard_v(), false);
    assert_eq!(decoded.keyboard_b(), false);
}

#[test]
fn remote_exact_bytes() {
    let rc = RemoteControl {
        mouse_x: -1,
        mouse_y: -32768,
        mouse_z: 0x0102,
        left_button: false,
        right_button: true,
        keyboard_v: 0xC003,
        _reserved: 0xABCD,
    };
    let mut buf = [0u8; 12];
    assert_eq!(rc.marshal(&mut buf), Ok(12));
    assert_eq!(buf, [0xFF, 0xFF, 0x00, 0x80, 0x02, 0x01, 0, 1, 0x03, 0xC0, 0xCD, 0xAB]);
    let back = RemoteControl::unmarshal(&buf).unwrap();
    assert_eq!(back, rc);
    assert!(back.keyboard_w() && back.keyboard_s() && back.keyboard_v() && back.keyboard_b());
    assert!(!back.keyboard_a() && !back.keyboard_c());
    let mut small = [0u8; 5];
    assert_eq!(rc.marshal(&mut small), Err(Error::BufferTooSmall { need: 7 }));
    assert_eq!(RemoteControl::unmarshal(&buf[..11]), Err(Error::InvalidDataLength { expected: 12 }));
}

#[test]
fn remote_any_nonzero_byte_is_pressed() {
    let raw = [0, 0, 0, 0, 0, 0, 7, 0x80, 0, 0, 0, 0];
    let rc = RemoteControl::unmarshal(&raw).unwrap();
    assert!(rc.left_button_pressed());
    assert!(rc.right_button_pressed());
}

#[test]
fn custom_is_a_command_id_only() {
    let _c = Custom2Robot {};
    assert_eq!(Custom2Robot::CMD_ID, 0x0302);
}

#[test]
fn common_test() {
    let interaction: Interaction<4> = Interaction {
        cmd_id: Command::DrawOneFigure,
        sender: 0x1234,
        receiver: 0x5678,
        data: [1, 2, 3, 4],
    };

    let mut buf = [0u8; 10];
    let size = interaction.marshal(&mut buf).unwrap();
    assert_eq!(size, 10);

    let decoded = Interaction::<4>::unmarshal(&buf).unwrap();
    assert_eq!(decoded.cmd_id, interaction.cmd_id);
    assert_eq!(decoded.sender, interaction.sender);
    assert_eq!(decoded.receiver, interaction.receiver);
    assert_eq!(decoded.data, interaction.data);
}

#[test]
fn interaction_bytes_and_errors() {
    let interaction: Interaction<2> = Interaction {
        cmd_id: Command::DrawCharacter,
        sender: 0x0102,
        receiver: 0x0304,
        data: [9, 8],
    };
    let mut buf = [0u8; 8];
    assert_eq!(interaction.marshal(&mut buf), Ok(8));
    assert_eq!(buf, [0x10, 0x01, 0x02, 0x01, 0x04, 0x03, 9, 8]);

    let mut small = [0u8; 7];
    assert_eq!(interaction.marshal(&mut small), Err(Error::BufferTooSmall { need: 8 }));

    let big: Interaction<113> = Interaction {
        cmd_id: Command::DeleteLayer,
        sender: 0,
        receiver: 0,
        data: [0u8; 113],
    };
    let mut large = [0u8; 200];
    assert_eq!(big.marshal(&mut large), Err(Error::InputTooLarge { max: 112 }));

    assert_eq!(Interaction::<2>::unmarshal(&buf[..5]), Err(Error::InvalidDataLength { expected: 3 }));
    let unknown = [0x05, 0x01, 0, 0, 0, 0, 1, 2];
    assert_eq!(Interaction::<2>::unmarshal(&unknown), Err(Error::DecodeError { at: 1 }));
}

#[test]
fn delete_layer_test() {
    let delete_layer = DeleteLayer::new(DeleteType::DeleteLayer, 3);

    assert_eq!(delete_layer.as_command(), Command::DeleteLayer);
    assert_eq!(delete_layer.as_data(), [1, 3]);
}

#[test]
fn interaction_from_operations() {
    let all = DeleteLayer::new(DeleteType::DeleteAllLayers, 7);
    let it = Interaction::new(0x0101, 0x0165, all);
    assert_eq!(it.cmd_id, Command::DeleteLayer);
    assert_eq!(it.sender, 0x0101);
    assert_eq!(it.receiver, 0x0165);
    assert_eq!(it.data, [2, 7]);

    let mut fig = IaFigure::new();
    fig.name = [b'a', b'b', b'c'];
    assert_eq!(fig.as_command(), Command::DeleteLayer);
    let data = fig.as_data();
    assert_eq!(&data[..3], b"abc");
    assert_eq!(&data[3..], &[0u8; 12]);
    let it = Interaction::new(1, 2, fig);
    assert_eq!(it.data, data);
}

#[test]
fn ui_codes() {
    assert_eq!(Command::DeleteLayer.code(), 0x0100);
    assert_eq!(Command::DrawCharacter.code(), 0x0110);
    assert_eq!(DeleteType::NoOperation.code(), 0);
    assert_eq!(Operate::Delete.code(), 3);
    assert_eq!(FigureType::Character.code(), 7);
    assert_eq!(Color::White.code(), 8);
    let f = IaFigure::new();
    assert_eq!(f.width, 0);
    assert_eq!(f.name, [0, 0, 0]);
}
