//! Decision core of a desktop video wallpaper engine.
//!
//! Everything here works on plain values: what the operating system, the media
//! pipelines and libVLC report comes in as arguments, and what they have to do
//! next goes out as results.

pub mod audio_worker;
pub mod controls;
pub mod desktop;
pub mod direct_mft;
pub mod engine;
pub mod failures;
pub mod gpu_setup;
pub mod media_event_queue;
pub mod media_path;
pub mod mf_d3d11;
pub mod monitor;
pub mod native_audio;
pub mod pcm_queue;
pub mod playback_clock;
pub mod preparation;
pub mod presenter;
pub mod smoke_test;
pub mod status;
pub mod text;
pub mod vlc;
