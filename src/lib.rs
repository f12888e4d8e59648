//! Dictation core: a single-instance audio capture session and a dispatcher
//! that turns transcription and text-cleanup calls into provider-specific
//! HTTP requests and reads the providers' replies.

pub mod config;
pub mod dispatch;
pub mod json;
pub mod provider;
pub mod reply;
pub mod session;
