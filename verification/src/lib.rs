//! Decision logic of a device-resident agent that listens on a per-device
//! command topic of a publish/subscribe broker and runs host actions.

pub mod agent;
pub mod command;
pub mod dispatch;
pub mod identity;
pub mod progress;
pub mod session;
pub mod text;
pub mod trace;
