//! Verified core of a directory-mirroring tool.
//!
//! The library models filesystem paths as lists of components, resolves an
//! entry's path against a source root, plans the directories that must exist
//! under a destination root, and drives one synchronization worker as a state
//! machine: the worker turns each received event into the next action that an
//! unverified shell performs (create directories, transfer an entry, copy
//! permission bits, emit a progress message, stop).

pub mod entry;
pub mod errors;
pub mod paths;
pub mod progress;
pub mod sync;
pub mod worker;
