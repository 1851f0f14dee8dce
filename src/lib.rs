//! A Vietnamese input method engine: keystrokes typed in Telex (or VNI,
//! VIQR, and Telex readings for Chữ Nôm) are turned into edit actions that
//! compose Vietnamese text, with the spelling rules, tone placement and
//! keystroke history that this takes.

pub mod buffer;
pub mod engine;
pub mod ipc;
pub mod lookup_table;
pub mod methods;
pub mod nom;
pub mod plugin;
pub mod processor;
pub mod registry;
pub mod rules;
pub mod spelling;
pub mod state;
pub mod syllable;
pub mod telex;
pub mod text;
pub mod traits;
pub mod transform;
pub mod types;
pub mod unicode;
pub mod validation;
pub mod viet_lookup;
pub mod viet_types;
