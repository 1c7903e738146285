//! Verified core of a voice assistant daemon.

pub mod assistant;
pub mod calibration;
pub mod capture;
pub mod capture_health;
pub mod config;
pub mod cue;
pub mod dictation;
pub mod endpointer;
pub mod error;
pub mod json;
pub mod late_events;
pub mod output;
pub mod paths;
pub mod phrases;
pub mod pipeline;
pub mod pipeline_laws;
pub mod pipeline_steps;
pub mod playback;
pub mod samples;
pub mod sentence_buffer;
pub mod service;
pub mod session;
pub mod setup;
pub mod single;
pub mod speaker;
pub mod speech_text;
pub mod state;
pub mod text;
pub mod time;
pub mod tools;
pub mod transcriber;
pub mod turn;
pub mod view_laws;
pub mod voices;
pub mod wake_tuning;
pub mod wav;
