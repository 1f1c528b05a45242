//! Named sets of colour overrides for a desktop toolkit, the policy that
//! selects the active set, and the stylesheet text generated from it.
//!
//! The library decides and computes; it neither reads nor writes. Its
//! callers look records up, hand in what they found, and write what the
//! library returns.
//!
//! - `colors`: an override set, its slots by name, its stylesheet text.
//! - `config`: the activation policy, its resolution, and what applying it
//!   writes.
//! - `import`: the import directive in the toolkit-wide stylesheet.
//! - `notify`: the watcher of the active palette as a state machine.
//! - `error`: the failures, and the outcome of a look-up.
//! - `text`: comparison of bytes and of text.

use vstd::prelude::*;

pub mod colors;
pub mod config;
pub mod error;
pub mod import;
pub mod notify;
pub mod text;

verus! {

/// Application identifier under which configuration and data are stored.
pub const NAME: &'static str = "com.system76.UserColorEditor";

/// Directory, below the application's data directory, that holds the override records.
pub const THEME_DIR: &'static str = "color-overrides";

} // verus!
