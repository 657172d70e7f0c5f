//! State behind a small welcome page: a click counter and a dark-mode
//! preference that is mirrored to persistent key-value storage.
pub mod counter;
pub mod preference;

pub use counter::ClickCounter;
pub use preference::{DarkModeToggle, STORAGE_KEY};
