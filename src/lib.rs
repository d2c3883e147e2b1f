//! Window-state reconciliation and keyboard normalisation.
//!
//! The crate holds the decisions a windowing backend has to make, proved
//! against their contracts: which OS directives bring a window from one set
//! of attributes to another, how the cursor is clipped and hidden, and how
//! raw key codes become layout-independent physical keys and
//! layout-dependent logical keys. Carrying the directives out is left to the
//! platform layer that calls in.

pub mod altgr;
pub mod device;
pub mod event;
pub mod key_map;
pub mod keyboard;
pub mod monitor;
pub mod window;
pub mod window_state;
