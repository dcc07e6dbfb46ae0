//! Parsers and writers for the cooked file formats of the UbiArt engine
//! (Just Dance games), with their contracts proved by Verus.
use vstd::prelude::*;

pub mod act;
pub mod bytes;
pub mod dlcdescriptor;
pub mod encode;
pub mod error;
pub mod gtx;
pub mod isc;
pub mod isg;
pub mod json;
pub mod layout;
pub mod png;
pub mod sgs;
pub mod utils;

verus! {

} // verus!
