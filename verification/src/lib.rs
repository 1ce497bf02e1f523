//! hearit: the key that speaks. Select text anywhere, press the key, and
//! the words are read aloud by a local voice engine.
//!
//! This crate is the verified core: the speak key's debounce, the take
//! tokens that let a new selection win instantly, the voice engine's
//! launch, warmup and wire protocol, the audio tap and playback watch
//! behind the pill, the companions' lookup order, and the formats hearit
//! writes down. The host application supplies the OS: hotkeys, clipboard,
//! audio device, processes, files and the network.

pub mod diag;
pub mod gaplog;
pub mod grab;
pub mod hotkey;
pub mod paths;
pub mod pill;
pub mod session;
pub mod sidecar;
pub mod speak;
pub mod synth;
pub mod text;
pub mod tray;
