//! Modal text-input and navigation engine for a terminal weather client.
//!
//! The library holds the verified core: a character-indexed text buffer with
//! word-wise motions, the Normal/Insert modal key state machine, the
//! race-safe autocomplete suggestion coordinator, the bounded search-history
//! ring, and the top-level application phase machine.  Terminal I/O, network
//! calls and persistence live outside the library and talk to it through
//! plain values.

pub mod app;
pub mod buffer;
pub mod fetch;
pub mod history;
pub mod keys;
pub mod motion;
pub mod suggest;
pub mod text;
pub mod weather;

pub use app::App;
pub use text::char_is_whitespace;
pub use weather::weather_code_to_description;
