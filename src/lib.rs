//! Translation of musical performance events into keyboard input.
//!
//! - `keycodes`: the key symbol table and key transitions.
//! - `key_state`: press counts that reconcile notes sharing one key.
//! - `output_methods`: the contract of an output method and the state and
//!   transitions shared by the methods that hold note keys.
//! - `generic`, `pv`, `piano_rooms`: the three output methods.
//! - `dispatch`: the selected method, and routing of incoming events.
//! - `modifiers`: modifier flags for injectors that must track them.
//! - `laws`: what the methods guarantee about the keyboard the system sees.

pub mod keycodes;
pub mod key_state;
pub mod output_methods;
pub mod generic;
pub mod pv;
pub mod piano_rooms;
pub mod dispatch;
pub mod modifiers;
pub mod laws;
