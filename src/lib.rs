//! A marketplace for unique items, paid for in a native coin or a fungible
//! token, traded item for item, or sold on negotiated offers.
//!
//! Every operation works on an explicit [`state::Store`] and hands back the
//! outbound calls it dispatches as a list of [`state::Effect`] values, each
//! instruction to a registry already encoded; wrapping those into chain
//! messages is left to the host.
pub mod contract;
pub mod error;
pub mod laws;
pub mod msg;
pub mod order;
pub mod query;
pub mod state;
pub mod uint;
pub mod wire;
