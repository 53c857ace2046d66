//! Runtime core for hosting one emulation plugin: address translation,
//! memory domains, the remote-control protocols and the plugin lifecycle.

pub mod ap_remote;
pub mod audio;
pub mod buildbot;
pub mod callbacks;
pub mod environment;
pub mod environment_command;
pub mod handle;
pub mod input;
pub mod lifecycle;
pub mod memory;
pub mod memory_map;
pub mod numbers;
pub mod remote;
pub mod runtime;
pub mod state;
pub mod system_info;
pub mod text;
pub mod util;
pub mod video;
