//! Verified core of the PiSugar power manager: BCD clock arithmetic,
//! register programs for the battery and RTC chips, button tap detection,
//! the text command grammar of the server and the configuration rules.

pub mod bcd;
pub mod text;
pub mod clock;
pub mod rtc;
pub mod regs;
pub mod sd3078;
pub mod pisugar3;
pub mod model;
pub mod tap;
pub mod error;
pub mod ip5209;
pub mod ip5312;
pub mod config;
pub mod numtext;
pub mod radix;
pub mod path;
pub mod cmds;
pub mod cmd_parse;
pub mod server;
pub mod supervisor;
pub mod session;
pub mod programmer;
pub mod standalone;
pub mod webtime;
