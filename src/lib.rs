//! A keyboard-sound engine: it turns each key press into the playback of the
//! sound that a sound pack assigns to that key.
//!
//! - `keymap`: platform keys and the canonical scan-code table.
//! - `manifest`: the sound-pack manifest and the plan of assets it asks for.
//! - `pack`: loading a sound pack, all or nothing.
//! - `dispatch`: per-event decisions, with the retrigger policy.

pub mod keymap;
pub mod manifest;
pub mod pack;
pub mod dispatch;

pub use keymap::{key_to_key_code, PlatformKey};
pub use manifest::{entry_path, DefineValue, Manifest, ManifestEntry};
pub use pack::{load_pack, manifest_path, ConfigError, SoundPack};
pub use dispatch::{Dispatcher, RetriggerPolicy, Trigger};
