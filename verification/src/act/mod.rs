//! `.act.ckd` files hold the serialized form of an actor: a header with the
//! path of its template (`lua`), then its components, each introduced by the
//! string id of its class name.
pub mod carousel;
pub mod components;
pub mod parser;
pub mod types;
pub mod writer;
