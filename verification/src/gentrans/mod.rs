//! Referee system payloads sent from the server or the main control module
//! to the robot.

/// 0x0204 - Robot Buff
pub mod buff;

/// 0x0003 - Robot Health
pub mod health;

/// 0x0101 - Game Event
pub mod event;

/// 0x0105 - Dart Info
pub mod dart;

/// 0x0201 - Robot Status
pub mod status;

/// 0x0202 - Power Heat Data
pub mod heat;

/// 0x0002 - Game Result
pub mod result;

/// 0x0104 - Referee Warning
pub mod warning;

/// 0x0206 - Robot Hurt Data
pub mod hurt;

/// 0x0001 - Game Status
pub mod states;

/// 0x0203 - Robot Position
pub mod pos;
