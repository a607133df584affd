pub mod about;
pub mod animation;
pub mod animation_frames;
pub mod cache_policy;
pub mod commands;
pub mod config;
pub mod config_apply;
pub mod config_file;
pub mod config_laws;
pub mod config_text;
pub mod decode;
pub mod decode_results;
pub mod display;
pub mod export;
pub mod export_request;
pub mod folder;
pub mod frame_cache;
pub mod geometry;
pub mod info;
pub mod loaded;
pub mod memory;
pub mod order;
pub mod paths;
pub mod pixels;
pub mod preload_cache;
pub mod preloading;
pub mod profile;
pub mod render_cache;
pub mod resample;
pub mod scaling;
pub mod settings;
pub mod shared;
pub mod text;
pub mod viewer;
pub mod viewer_error;
pub mod viewer_core;
pub mod config_layout;
