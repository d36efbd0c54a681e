//! Verified core of a terminal client for the NetEase Cloud Music service.

pub mod text;
pub mod model;
pub mod lrc;
pub mod dto;
pub mod convert;
pub mod play_mode;
pub mod queue;
pub mod persist;
pub mod command;
pub mod keys;
pub mod keyboard;
pub mod clock;
pub mod rng;
pub mod layout;
pub mod mouse;
pub mod widgets;
pub mod toast;
pub mod netease_actor;
pub mod cookie_jar;
pub mod codec;
pub mod session;
pub mod crypto;
pub mod usecases;
pub mod app_state;
pub mod settings;
pub mod request;
pub mod app_loop;
pub mod panels;
pub mod screens;
pub mod snapshot;
pub mod source_hub;
pub mod ui_state;
