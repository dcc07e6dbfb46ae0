//! The types of `.gtx` texture containers (Wii U).
use vstd::prelude::*;
use super::addr_lib::{ex_format_info, hw_format, hw_format_bpp};

verus! {

/// The header of a GFD file.
#[derive(Debug, Clone, Copy, PartialEq, Eq, Structural)]
pub struct GfdHeader {
    pub align_mode: u32,
}

/// The magic number that starts a GFD file (`Gfx2`).
pub const GFD_MAGIC: u32 = 0x4766_7832;

/// The GPU version that a GFD file must name.
pub const GFD_GPU_VERSION: u32 = 0x2;

/// The magic number that starts every block (`BLK{`).
pub const BLOCK_MAGIC: u32 = 0x424C_4B7B;

/// A surface format of the GX2 library.
#[derive(Debug, Clone, Copy, PartialEq, Eq, Structural)]
pub enum Format {
    TcsR8G8B8A8Unorm,
    TcsR8G8B8A8Srgb,
    TcsR10G10B10A2Unorm,
    TcsR5G6B5Unorm,
    TcR5G5B5A1Unorm,
    TcR4G4B4A4Unorm,
    TcR8Unorm,
    TcR8G8Unorm,
    TcR4G4Unorm,
    TBc1Unorm,
    TBc1Srgb,
    TBc2Unorm,
    TBc2Srgb,
    TBc3Unorm,
    TBc3Srgb,
    TBc4Unorm,
    TBc4Snorm,
    TBc5Unorm,
    TBc5Snorm,
}

impl Format {
    /// The number by which the file format stores this surface format.
    pub open spec fn code(self) -> u32 {
        match self {
            Format::TcsR8G8B8A8Unorm => 0x01A,
            Format::TcsR8G8B8A8Srgb => 0x41A,
            Format::TcsR10G10B10A2Unorm => 0x019,
            Format::TcsR5G6B5Unorm => 0x008,
            Format::TcR5G5B5A1Unorm => 0x00A,
            Format::TcR4G4B4A4Unorm => 0x00B,
            Format::TcR8Unorm => 0x001,
            Format::TcR8G8Unorm => 0x007,
            Format::TcR4G4Unorm => 0x002,
            Format::TBc1Unorm => 0x031,
            Format::TBc1Srgb => 0x431,
            Format::TBc2Unorm => 0x032,
            Format::TBc2Srgb => 0x432,
            Format::TBc3Unorm => 0x033,
            Format::TBc3Srgb => 0x433,
            Format::TBc4Unorm => 0x034,
            Format::TBc4Snorm => 0x234,
            Format::TBc5Unorm => 0x035,
            Format::TBc5Snorm => 0x235,
        }
    }

    /// The bits per pixel (per block for the block-compressed formats) that this format stores.
    pub open spec fn bits_per_pixel(self) -> u32 {
        match self {
            Format::TcR8Unorm => 1,
            Format::TcR4G4Unorm => 8,
            Format::TcsR5G6B5Unorm | Format::TcR5G5B5A1Unorm | Format::TcR4G4B4A4Unorm
            | Format::TcR8G8Unorm => 16,
            Format::TcsR8G8B8A8Unorm | Format::TcsR8G8B8A8Srgb | Format::TcsR10G10B10A2Unorm => 32,
            Format::TBc1Unorm | Format::TBc1Srgb | Format::TBc4Unorm | Format::TBc4Snorm => 64,
            Format::TBc2Unorm | Format::TBc2Srgb | Format::TBc3Unorm | Format::TBc3Srgb
            | Format::TBc5Unorm | Format::TBc5Snorm => 128,
        }
    }

    /// The bits per pixel of every format but `R8` are those that the hardware
    /// format table of the address library gives its hardware format (the low
    /// six bits of its code): 64 bits a block for BC1 and BC4, 128 for BC2, BC3
    /// and BC5. They agree with the first column of the format table as well,
    /// but for BC5, where that table says 64. `R8` has 1, where both tables say 8.
    pub proof fn lemma_bits_per_pixel_by_hardware_format(self)
        ensures
            self != Format::TcR8Unorm ==> self.bits_per_pixel() == hw_format_bpp(hw_format(self.code())),
            self == Format::TcR8Unorm ==> self.bits_per_pixel() == 1 && hw_format_bpp(hw_format(self.code())) == 8,
            hw_format(self.code()) != 0x01 && hw_format(self.code()) != 0x35
                ==> self.bits_per_pixel() == ex_format_info(hw_format(self.code())).0,
            hw_format(self.code()) == 0x31 || hw_format(self.code()) == 0x34 ==> self.bits_per_pixel() == 64,
            hw_format(self.code()) == 0x32 || hw_format(self.code()) == 0x33 || hw_format(self.code()) == 0x35
                ==> self.bits_per_pixel() == 128,
    {
    }

    /// The number by which the file format stores this surface format.
    pub fn value(&self) -> (r: u32)
        ensures
            r == self.code(),
    {
        match self {
            Format::TcsR8G8B8A8Unorm => 0x01A,
            Format::TcsR8G8B8A8Srgb => 0x41A,
            Format::TcsR10G10B10A2Unorm => 0x019,
            Format::TcsR5G6B5Unorm => 0x008,
            Format::TcR5G5B5A1Unorm => 0x00A,
            Format::TcR4G4B4A4Unorm => 0x00B,
            Format::TcR8Unorm => 0x001,
            Format::TcR8G8Unorm => 0x007,
            Format::TcR4G4Unorm => 0x002,
            Format::TBc1Unorm => 0x031,
            Format::TBc1Srgb => 0x431,
            Format::TBc2Unorm => 0x032,
            Format::TBc2Srgb => 0x432,
            Format::TBc3Unorm => 0x033,
            Format::TBc3Srgb => 0x433,
            Format::TBc4Unorm => 0x034,
            Format::TBc4Snorm => 0x234,
            Format::TBc5Unorm => 0x035,
            Format::TBc5Snorm => 0x235,
        }
    }

    /// Whether this format is block compressed (BC1 to BC5): exactly the formats
    /// whose hardware format, the low six bits of the code, lies in `0x31..=0x35`.
    pub fn is_bcn(&self) -> (r: bool)
        ensures
            r == (0x31 <= self.code() % 64 <= 0x35),
    {
        match self {
            Format::TBc1Srgb | Format::TBc1Unorm | Format::TBc2Srgb | Format::TBc2Unorm
            | Format::TBc3Srgb | Format::TBc3Unorm | Format::TBc4Snorm | Format::TBc4Unorm
            | Format::TBc5Snorm | Format::TBc5Unorm => true,
            _ => false,
        }
    }

    /// The bits per pixel (per block for the block-compressed formats) of this format.
    pub fn get_bpp(&self) -> (r: u32)
        ensures
            r == self.bits_per_pixel(),
    {
        match self {
            Format::TcR8Unorm => 1,
            Format::TcR4G4Unorm => 8,
            Format::TcsR5G6B5Unorm | Format::TcR5G5B5A1Unorm | Format::TcR4G4B4A4Unorm
            | Format::TcR8G8Unorm => 16,
            Format::TcsR8G8B8A8Unorm | Format::TcsR8G8B8A8Srgb | Format::TcsR10G10B10A2Unorm => 32,
            Format::TBc1Unorm | Format::TBc1Srgb | Format::TBc4Unorm | Format::TBc4Snorm => 64,
            Format::TBc2Unorm | Format::TBc2Srgb | Format::TBc3Unorm | Format::TBc3Srgb
            | Format::TBc5Unorm | Format::TBc5Snorm => 128,
        }
    }

    /// The format stored as `value`; an error where no format has that code.
    pub fn try_from(value: u32) -> (r: Result<Format, crate::error::ReadError>)
        ensures
            match r {
                Ok(f) => f.code() == value,
                Err(_) => forall|f: Format| f.code() != value,
            },
    {
        match value {
            0x01A => Ok(Format::TcsR8G8B8A8Unorm),
            0x41A => Ok(Format::TcsR8G8B8A8Srgb),
            0x019 => Ok(Format::TcsR10G10B10A2Unorm),
            0x008 => Ok(Format::TcsR5G6B5Unorm),
            0x00A => Ok(Format::TcR5G5B5A1Unorm),
            0x00B => Ok(Format::TcR4G4B4A4Unorm),
            0x001 => Ok(Format::TcR8Unorm),
            0x007 => Ok(Format::TcR8G8Unorm),
            0x002 => Ok(Format::TcR4G4Unorm),
            0x031 => Ok(Format::TBc1Unorm),
            0x431 => Ok(Format::TBc1Srgb),
            0x032 => Ok(Format::TBc2Unorm),
            0x432 => Ok(Format::TBc2Srgb),
            0x033 => Ok(Format::TBc3Unorm),
            0x433 => Ok(Format::TBc3Srgb),
            0x034 => Ok(Format::TBc4Unorm),
            0x234 => Ok(Format::TBc4Snorm),
            0x035 => Ok(Format::TBc5Unorm),
            0x235 => Ok(Format::TBc5Snorm),
            _ => Err(crate::error::ReadError),
        }
    }
}

/// Whether some format has the code `value`.
pub open spec fn is_format_code(value: u32) -> bool {
    exists|f: Format| f.code() == value
}

/// The tiling mode of a surface (`AddrTileMode` of the Wii U address library).
#[derive(Debug, Clone, Copy, PartialEq, Eq, Structural)]
pub enum TileMode {
    LinearGeneral,
    LinearAligned,
    Tiled1DThin1,
    Tiled1DThick,
    Tiled2DThin1,
    Tiled2DThin2,
    Tiled2DThin4,
    Tiled2DThick,
    Tiled2BThin1,
    Tiled2BThin2,
    Tiled2BThin4,
    Tiled2BThick,
    Tiled3DThin1,
    Tiled3DThick,
    Tiled3BThin1,
    Tiled3BThick,
    Tiled2DXThick,
    Tiled3DXThick,
    PowerSave,
    Count,
}

impl TileMode {
    /// The number of this tiling mode in the address library.
    pub open spec fn code(self) -> u32 {
        match self {
            TileMode::LinearGeneral => 0,
            TileMode::LinearAligned => 1,
            TileMode::Tiled1DThin1 => 2,
            TileMode::Tiled1DThick => 3,
            TileMode::Tiled2DThin1 => 4,
            TileMode::Tiled2DThin2 => 5,
            TileMode::Tiled2DThin4 => 6,
            TileMode::Tiled2DThick => 7,
            TileMode::Tiled2BThin1 => 8,
            TileMode::Tiled2BThin2 => 9,
            TileMode::Tiled2BThin4 => 10,
            TileMode::Tiled2BThick => 11,
            TileMode::Tiled3DThin1 => 12,
            TileMode::Tiled3DThick => 13,
            TileMode::Tiled3BThin1 => 14,
            TileMode::Tiled3BThick => 15,
            TileMode::Tiled2DXThick => 16,
            TileMode::Tiled3DXThick => 17,
            TileMode::PowerSave => 18,
            TileMode::Count => 19,
        }
    }
}

/// The description of one surface (`GX2Surface`).
#[derive(Debug, Clone, Copy, PartialEq, Eq)]
pub struct Gx2Surface {
    pub dim: u32,
    pub width: u32,
    pub height: u32,
    pub depth: u32,
    pub num_mips: u32,
    pub format: Format,
    pub use_it: u32,
    pub image_size: u32,
    pub image_ptr: u32,
    pub mip_size: u32,
    pub mip_ptr: u32,
    pub tile_mode: TileMode,
    pub swizzle: u32,
    pub alignment: u32,
    pub pitch: u32,
    pub mip_offsets: [u32; 13],
    pub bpp: u32,
    pub real_size: u32,
}

/// One block of a GFD file.
pub enum Block {
    Surface(Gx2Surface),
    Data(Vec<u8>),
    Mip(Vec<u8>),
    Unknown(u32, Vec<u8>),
}

/// A surface together with the image data that belongs to it, tiled as the
/// file holds it. The application de-tiles it (`deswizzled_data` in
/// `app/gtx.rs`, with the arguments that `deswizzle_params` computes).
pub struct Image {
    pub surface: Gx2Surface,
    pub data: Vec<u8>,
}

/// A GFD texture file: its header and its images, whose data is still tiled.
pub struct Gtx {
    pub gfd: GfdHeader,
    pub images: Vec<Image>,
}

} // verus!
