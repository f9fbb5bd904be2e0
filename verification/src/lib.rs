//! Gremlin, a desktop companion: a daemon that answers questions with a local language model
//! and the tools of the desktop, and the sprite that stands for it on the screen.
//!
//! The library decides and computes. What has to be asked of the world comes in as plain
//! values, and what has to be done to it goes out as requests.
pub mod config;
pub mod context;
pub mod conversation;
pub mod daemon;
pub mod desktop;
pub mod dialog;
pub mod effect;
pub mod error;
pub mod hermes;
pub mod json;
pub mod laws;
pub mod ollama;
pub mod picture;
pub mod process;
pub mod protocol;
pub mod report;
pub mod saved;
pub mod service;
pub mod sprite;
pub mod text;
pub mod toolcall;
pub mod tools;
pub mod viewer;
pub mod vision;
pub mod window;
