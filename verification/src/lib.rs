//! Verified core of an ONVIF camera control tool: credential selection,
//! service discovery planning, device reports and the command flow.

pub mod text;
pub mod error;
pub mod uri;
pub mod device;
pub mod credentials;
pub mod clock;
pub mod report;
pub mod command;
pub mod discovery;
