//! Determines the local timezone of the host as an IANA identifier.
//!
//! The library holds the decision logic of every resolution strategy: the
//! Unix chain of environment, name files, links and configuration files; the
//! Windows chain of the calendar API and the system key name, which is
//! looked up in the shipped Unicode CLDR `windowsZones` table; and the web
//! chain of the resolved formatting options. Reading the environment, the
//! files and the native APIs is left to the caller, who hands in what it
//! found.

pub mod text;
pub mod tz;
pub mod windows;
pub mod dataset;
pub mod bundled;
pub mod resolve;
pub mod laws;

pub use dataset::{DatasetError, WindowsZones};
pub use resolve::{as_tz, key_text, tz_from_config, tz_from_path, unix_tz, web_tz, windows_tz, UnixSources};
pub use tz::IanaTz;
pub use windows::{Error, WindowsTz};
