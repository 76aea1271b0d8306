//! Verified core logic of the TOS terminal shell: shell integration
//! escape sequences, dangerous-command screening, collaboration roles,
//! tactical reset, voice command parsing and the supporting text tools.
use vstd::prelude::*;

pub mod text;
pub mod scan;
pub mod ids;
pub mod pattern;
pub mod shell_api;
pub mod model;
pub mod shell_session;
pub mod earcons;
pub mod idmap;
pub mod clock;
pub mod collaboration;
pub mod advanced_input;
pub mod events;
pub mod search;
pub mod ai;
pub mod log;
pub mod pty;
pub mod performance;
pub mod perf_monitor;
pub mod remote;
pub mod reset;
pub mod security;
pub mod voice;
pub mod shell;
pub mod minimap;
pub mod ipc;
pub mod paths;
pub mod audio;

verus! {

} // verus!
pub mod dispatch;
pub mod render;
pub mod themes;
pub mod remote_link;
pub mod earcon_player;
pub mod terminal;
pub mod procstat;
pub mod svg;
pub mod confirm_render;
pub mod bezel;
pub mod dirsort;
pub mod hub_render;
pub mod hub_modes;
pub mod global_render;
pub mod app_views;
