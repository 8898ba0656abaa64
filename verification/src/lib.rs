//! Verified core of the NyaTerm portable updater: the archive rules that decide
//! what a downloaded update may contain, the protocol that swaps the installed
//! files with rollback, the helper process hand-off and the shared update state.

pub mod error;
pub mod layout;
pub mod actions;
pub mod commit;
pub mod model;
pub mod replace;
pub mod replace_model;
pub mod replace_faults;
pub mod payload;
pub mod archive;
pub mod helper;
pub mod state;
pub mod conpty;
