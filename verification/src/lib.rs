//! The decisions of a voice-input desktop application, with contracts that are
//! proved: licensing, model downloads, speech servers and the formats in which
//! recordings and requests are handed over. The shell around the library does
//! the input and output and acts on what the library decides.
pub mod bytes;
pub mod clock;
pub mod device;
pub mod download;
pub mod export;
pub mod json;
pub mod license;
pub mod model;
pub mod reazon;
pub mod server;
pub mod session;
pub mod text;
pub mod update;
pub mod wav;
pub mod whisper;
