//! Configuration core of a proxy-client desktop application: profile
//! bookkeeping, application settings, runtime-config patching, window and
//! core-process decisions, and the small text utilities they rely on.

pub mod text;
pub mod prfitem;
pub mod profiles;
pub mod profile_laws;
pub mod help;
pub mod verge;
pub mod constants;
pub mod encrypt;
pub mod runtime;
pub mod logging;
pub mod schtasks;
pub mod window;
pub mod server;
pub mod manager;
pub mod system;
pub mod notification;
pub mod config;
