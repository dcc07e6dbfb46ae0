//! Scenes (`.isc.ckd`): the actors of a scene, its sub-scenes and its scene
//! configurations. Just Dance 2015 stores them in a binary form that this
//! library parses. The later games store them as XML documents, which this
//! crate neither reads nor writes.
pub mod binary;
pub mod defaults;
pub mod types;
pub mod ui;
pub mod value;
