//! Core logic of a desktop front-end for managing SSHFS mount definitions:
//! sequential batch mount/unmount orchestration, inventory filtering,
//! failure-alert composition, the user-facing string catalog, and locale
//! detection.

pub mod alerts;
pub mod laws;
pub mod locale;
pub mod model;
pub mod nav;
pub mod orchestrator;
pub mod record;
pub mod search;
pub mod strings;
pub mod text;

pub use locale::detect_locale_by_lang_value;
