//! The values that a property patch sets: a color, a set of colors, an
//! integer, a path, a string, or a time (which holds nothing).
use vstd::prelude::*;

verus! {

/// A time value, which holds nothing.
#[derive(Debug, Clone, Copy)]
pub struct WrappedBase {
    pub base: (),
}

/// A color value.
#[derive(Debug, Clone, Copy)]
pub struct WrappedColor {
    pub color: Color,
}

/// A color value: the bits of its four `f32` channels.
#[derive(Debug, Clone, Copy)]
pub struct Color {
    pub value: crate::utils::Color,
}

/// A set of colors.
#[derive(Debug, Clone)]
pub struct WrappedColorSet {
    pub color_set: ColorSets,
}

/// The colors of a set, each under its key.
#[derive(Debug, Clone)]
pub struct ColorSets {
    pub color_set: Vec<ColorSet>,
}

/// A color under a key.
#[derive(Debug, Clone)]
pub struct ColorSet {
    pub key: Vec<u8>,
    pub value: crate::utils::Color,
}

/// An integer value.
#[derive(Debug, Clone, Copy)]
pub struct WrappedInt {
    pub int: Int,
}

/// An integer value.
#[derive(Debug, Clone, Copy)]
pub struct Int {
    pub value: u32,
}

/// A path value.
#[derive(Debug, Clone)]
pub struct WrappedPath {
    pub path: Path,
}

/// A path value.
#[derive(Debug, Clone)]
pub struct Path {
    pub value: Vec<u8>,
}

/// A string value.
#[derive(Debug, Clone)]
pub struct WrappedString {
    pub string: String,
}

/// A string value.
#[derive(Debug, Clone)]
pub struct String {
    pub value: Vec<u8>,
}

} // verus!
