//! Surface computations of the Wii U address library (`addrlib`), for GX2 surfaces.
use vstd::prelude::*;
use vstd::pervasive::unreached;
use crate::error::ReadError;
use super::types::Format;

verus! {

/// Column 0 of entry `k` of the hardware format table (`FORMAT_HW_INFO[4 * k]`):
/// the bits per pixel of hardware format `k`.
pub open spec fn hw_format_bpp(k: u32) -> u32 {
    match k {
        0 => 0x0,
        1 => 0x8,
        2 => 0x8,
        3 => 0x0,
        4 => 0x0,
        5 => 0x10,
        6 => 0x10,
        7 => 0x10,
        8 => 0x10,
        9 => 0x10,
        10 => 0x10,
        11 => 0x10,
        12 => 0x10,
        13 => 0x20,
        14 => 0x20,
        15 => 0x20,
        16 => 0x20,
        17 => 0x20,
        18 => 0x0,
        19 => 0x20,
        20 => 0x0,
        21 => 0x0,
        22 => 0x20,
        23 => 0x0,
        24 => 0x0,
        25 => 0x20,
        26 => 0x20,
        27 => 0x20,
        28 => 0x40,
        29 => 0x40,
        30 => 0x40,
        31 => 0x40,
        32 => 0x40,
        33 => 0x0,
        34 => 0x80,
        35 => 0x80,
        36 => 0x0,
        37 => 0x0,
        38 => 0x0,
        39 => 0x10,
        40 => 0x10,
        41 => 0x20,
        42 => 0x20,
        43 => 0x20,
        44 => 0x0,
        45 => 0x0,
        46 => 0x0,
        47 => 0x60,
        48 => 0x60,
        49 => 0x40,
        50 => 0x80,
        51 => 0x80,
        52 => 0x40,
        53 => 0x80,
        54 => 0x0,
        55 => 0x0,
        56 => 0x0,
        57 => 0x0,
        58 => 0x0,
        59 => 0x0,
        60 => 0x0,
        61 => 0x0,
        62 => 0x0,
        63 => 0x0,
        _ => 0,
    }
}

/// Entry `k` of the extended format table (`FORMAT_EX_INFO[4 * k..4 * k + 4]`):
/// bits per pixel, horizontal expansion, vertical expansion and element mode.
pub open spec fn ex_format_info(k: u32) -> (u32, u32, u32, u32) {
    match k {
        0 => (0x0, 0x1, 0x1, 0x3),
        1 => (0x8, 0x1, 0x1, 0x3),
        2 => (0x8, 0x1, 0x1, 0x3),
        3 => (0x8, 0x1, 0x1, 0x3),
        4 => (0x0, 0x1, 0x1, 0x3),
        5 => (0x10, 0x1, 0x1, 0x3),
        6 => (0x10, 0x1, 0x1, 0x3),
        7 => (0x10, 0x1, 0x1, 0x3),
        8 => (0x10, 0x1, 0x1, 0x3),
        9 => (0x10, 0x1, 0x1, 0x3),
        10 => (0x10, 0x1, 0x1, 0x3),
        11 => (0x10, 0x1, 0x1, 0x3),
        12 => (0x10, 0x1, 0x1, 0x3),
        13 => (0x20, 0x1, 0x1, 0x3),
        14 => (0x20, 0x1, 0x1, 0x3),
        15 => (0x20, 0x1, 0x1, 0x3),
        16 => (0x20, 0x1, 0x1, 0x3),
        17 => (0x20, 0x1, 0x1, 0x3),
        18 => (0x20, 0x1, 0x1, 0x3),
        19 => (0x20, 0x1, 0x1, 0x3),
        20 => (0x20, 0x1, 0x1, 0x3),
        21 => (0x20, 0x1, 0x1, 0x3),
        22 => (0x20, 0x1, 0x1, 0x3),
        23 => (0x20, 0x1, 0x1, 0x3),
        24 => (0x20, 0x1, 0x1, 0x3),
        25 => (0x20, 0x1, 0x1, 0x3),
        26 => (0x20, 0x1, 0x1, 0x3),
        27 => (0x20, 0x1, 0x1, 0x3),
        28 => (0x40, 0x1, 0x1, 0x3),
        29 => (0x40, 0x1, 0x1, 0x3),
        30 => (0x40, 0x1, 0x1, 0x3),
        31 => (0x40, 0x1, 0x1, 0x3),
        32 => (0x40, 0x1, 0x1, 0x3),
        33 => (0x0, 0x1, 0x1, 0x3),
        34 => (0x80, 0x1, 0x1, 0x3),
        35 => (0x80, 0x1, 0x1, 0x3),
        36 => (0x0, 0x1, 0x1, 0x3),
        37 => (0x1, 0x8, 0x1, 0x5),
        38 => (0x1, 0x8, 0x1, 0x6),
        39 => (0x10, 0x1, 0x1, 0x7),
        40 => (0x10, 0x1, 0x1, 0x8),
        41 => (0x20, 0x1, 0x1, 0x3),
        42 => (0x20, 0x1, 0x1, 0x3),
        43 => (0x20, 0x1, 0x1, 0x3),
        44 => (0x18, 0x3, 0x1, 0x4),
        45 => (0x30, 0x3, 0x1, 0x4),
        46 => (0x30, 0x3, 0x1, 0x4),
        47 => (0x60, 0x3, 0x1, 0x4),
        48 => (0x60, 0x3, 0x1, 0x4),
        49 => (0x40, 0x4, 0x4, 0x9),
        50 => (0x80, 0x4, 0x4, 0xa),
        51 => (0x80, 0x4, 0x4, 0xb),
        52 => (0x40, 0x4, 0x4, 0xc),
        53 => (0x40, 0x4, 0x4, 0xd),
        54 => (0x40, 0x4, 0x4, 0xd),
        55 => (0x40, 0x4, 0x4, 0xd),
        56 => (0x0, 0x1, 0x1, 0x3),
        57 => (0x0, 0x1, 0x1, 0x3),
        58 => (0x0, 0x1, 0x1, 0x3),
        59 => (0x0, 0x1, 0x1, 0x3),
        60 => (0x0, 0x1, 0x1, 0x3),
        61 => (0x0, 0x1, 0x1, 0x3),
        62 => (0x40, 0x1, 0x1, 0x3),
        63 => (0x0, 0x1, 0x1, 0x3),
        _ => (0, 0, 0, 0),
    }
}

fn hw_bpp(k: u32) -> (r: u32)
    requires
        k < 64,
    ensures
        r == hw_format_bpp(k),
{
    match k {
        0 => 0x0,
        1 => 0x8,
        2 => 0x8,
        3 => 0x0,
        4 => 0x0,
        5 => 0x10,
        6 => 0x10,
        7 => 0x10,
        8 => 0x10,
        9 => 0x10,
        10 => 0x10,
        11 => 0x10,
        12 => 0x10,
        13 => 0x20,
        14 => 0x20,
        15 => 0x20,
        16 => 0x20,
        17 => 0x20,
        18 => 0x0,
        19 => 0x20,
        20 => 0x0,
        21 => 0x0,
        22 => 0x20,
        23 => 0x0,
        24 => 0x0,
        25 => 0x20,
        26 => 0x20,
        27 => 0x20,
        28 => 0x40,
        29 => 0x40,
        30 => 0x40,
        31 => 0x40,
        32 => 0x40,
        33 => 0x0,
        34 => 0x80,
        35 => 0x80,
        36 => 0x0,
        37 => 0x0,
        38 => 0x0,
        39 => 0x10,
        40 => 0x10,
        41 => 0x20,
        42 => 0x20,
        43 => 0x20,
        44 => 0x0,
        45 => 0x0,
        46 => 0x0,
        47 => 0x60,
        48 => 0x60,
        49 => 0x40,
        50 => 0x80,
        51 => 0x80,
        52 => 0x40,
        53 => 0x80,
        54 => 0x0,
        55 => 0x0,
        56 => 0x0,
        57 => 0x0,
        58 => 0x0,
        59 => 0x0,
        60 => 0x0,
        61 => 0x0,
        62 => 0x0,
        63 => 0x0,
        _ => 0,
    }
}

/// The hardware format of a GX2 format: its low six bits.
pub open spec fn hw_format(format: u32) -> u32 {
    format % 64
}

/// The bits per pixel of the hardware format of `format` (`FORMAT_HW_INFO[(format & 0x3F) * 4]`).
pub fn surface_get_bits_per_pixel(format: u32) -> (r: Result<u32, ReadError>)
    ensures
        r == Ok::<u32, ReadError>(hw_format_bpp(hw_format(format))),
{
    let k = format & 0x3F;
    assert(format & 0x3F == format % 64) by (bit_vector);
    Ok(hw_bpp(k))
}

/// The tiling parameters of a surface.
#[derive(Debug, Clone, Copy)]
pub struct TileInfo {
    pub banks: u32,
    pub bank_width: u32,
    pub bank_height: u32,
    pub macro_aspect_ratio: u32,
    pub tile_split_bytes: u32,
    pub pipe_config: u32,
}

impl TileInfo {
    pub open spec fn is_zero(self) -> bool {
        &&& self.banks == 0
        &&& self.bank_width == 0
        &&& self.bank_height == 0
        &&& self.macro_aspect_ratio == 0
        &&& self.tile_split_bytes == 0
        &&& self.pipe_config == 0
    }
}

impl Default for TileInfo {
    fn default() -> (r: Self)
        ensures
            r.is_zero(),
    {
        TileInfo {
            banks: 0,
            bank_width: 0,
            bank_height: 0,
            macro_aspect_ratio: 0,
            tile_split_bytes: 0,
            pipe_config: 0,
        }
    }
}

/// The output of the surface computation (`ADDR_COMPUTE_SURFACE_INFO_OUTPUT`).
#[derive(Debug, Clone, Copy)]
pub struct SurfaceOut {
    pub size: u32,
    pub pitch: u32,
    pub height: u32,
    pub depth: u32,
    pub surface_size: u32,
    pub tile_mode: u32,
    pub base_align: u32,
    pub pitch_align: u32,
    pub height_align: u32,
    pub depth_align: u32,
    pub bpp: u32,
    pub pixel_pitch: u32,
    pub pixel_height: u32,
    pub pixel_bits: u32,
    pub slice_size: u32,
    pub pitch_tile_max: u32,
    pub height_tile_max: u32,
    pub slice_tile_max: u32,
    pub p_tile_info: TileInfo,
    pub tile_type: u32,
    pub tile_index: u32,
}

impl Default for SurfaceOut {
    fn default() -> (r: Self)
        ensures
            r.size == 0 && r.pitch == 0 && r.height == 0 && r.depth == 0 && r.surface_size == 0
                && r.tile_mode == 0 && r.base_align == 0 && r.pitch_align == 0 && r.height_align
                == 0 && r.depth_align == 0 && r.bpp == 0 && r.pixel_pitch == 0 && r.pixel_height
                == 0 && r.pixel_bits == 0 && r.slice_size == 0 && r.pitch_tile_max == 0
                && r.height_tile_max == 0 && r.slice_tile_max == 0 && r.p_tile_info.is_zero()
                && r.tile_type == 0 && r.tile_index == 0,
    {
        SurfaceOut {
            size: 0,
            pitch: 0,
            height: 0,
            depth: 0,
            surface_size: 0,
            tile_mode: 0,
            base_align: 0,
            pitch_align: 0,
            height_align: 0,
            depth_align: 0,
            bpp: 0,
            pixel_pitch: 0,
            pixel_height: 0,
            pixel_bits: 0,
            slice_size: 0,
            pitch_tile_max: 0,
            height_tile_max: 0,
            slice_tile_max: 0,
            p_tile_info: TileInfo::default(),
            tile_type: 0,
            tile_index: 0,
        }
    }
}

/// The input of the surface computation (`ADDR_COMPUTE_SURFACE_INFO_INPUT`).
#[derive(Debug, Clone, Copy)]
pub struct SurfaceIn {
    pub size: u32,
    pub tile_mode: u32,
    pub format: u32,
    pub bpp: u32,
    pub num_samples: u32,
    pub width: u32,
    pub height: u32,
    pub num_slices: u32,
    pub slice: u32,
    pub mip_level: u32,
    pub flags: u32,
    pub num_frags: u32,
    pub tile_info: TileInfo,
    pub tile_index: u32,
}

impl Default for SurfaceIn {
    fn default() -> (r: Self)
        ensures
            r.size == 0 && r.tile_mode == 0 && r.format == 0 && r.bpp == 0 && r.num_samples == 0
                && r.width == 0 && r.height == 0 && r.num_slices == 0 && r.slice == 0
                && r.mip_level == 0 && r.flags == 0 && r.num_frags == 0 && r.tile_info.is_zero()
                && r.tile_index == 0,
    {
        SurfaceIn {
            size: 0,
            tile_mode: 0,
            format: 0,
            bpp: 0,
            num_samples: 0,
            width: 0,
            height: 0,
            num_slices: 0,
            slice: 0,
            mip_level: 0,
            flags: 0,
            num_frags: 0,
            tile_info: TileInfo::default(),
            tile_index: 0,
        }
    }
}

/// Entry `format` of the extended format table: bits per pixel, horizontal and
/// vertical expansion, and element mode.
fn get_bits_per_pixel(format: u32) -> (r: (u32, u32, u32, u32))
    requires
        format < 64,
    ensures
        r == ex_format_info(format),
{
    match format {
        0 => (0x0, 0x1, 0x1, 0x3),
        1 => (0x8, 0x1, 0x1, 0x3),
        2 => (0x8, 0x1, 0x1, 0x3),
        3 => (0x8, 0x1, 0x1, 0x3),
        4 => (0x0, 0x1, 0x1, 0x3),
        5 => (0x10, 0x1, 0x1, 0x3),
        6 => (0x10, 0x1, 0x1, 0x3),
        7 => (0x10, 0x1, 0x1, 0x3),
        8 => (0x10, 0x1, 0x1, 0x3),
        9 => (0x10, 0x1, 0x1, 0x3),
        10 => (0x10, 0x1, 0x1, 0x3),
        11 => (0x10, 0x1, 0x1, 0x3),
        12 => (0x10, 0x1, 0x1, 0x3),
        13 => (0x20, 0x1, 0x1, 0x3),
        14 => (0x20, 0x1, 0x1, 0x3),
        15 => (0x20, 0x1, 0x1, 0x3),
        16 => (0x20, 0x1, 0x1, 0x3),
        17 => (0x20, 0x1, 0x1, 0x3),
        18 => (0x20, 0x1, 0x1, 0x3),
        19 => (0x20, 0x1, 0x1, 0x3),
        20 => (0x20, 0x1, 0x1, 0x3),
        21 => (0x20, 0x1, 0x1, 0x3),
        22 => (0x20, 0x1, 0x1, 0x3),
        23 => (0x20, 0x1, 0x1, 0x3),
        24 => (0x20, 0x1, 0x1, 0x3),
        25 => (0x20, 0x1, 0x1, 0x3),
        26 => (0x20, 0x1, 0x1, 0x3),
        27 => (0x20, 0x1, 0x1, 0x3),
        28 => (0x40, 0x1, 0x1, 0x3),
        29 => (0x40, 0x1, 0x1, 0x3),
        30 => (0x40, 0x1, 0x1, 0x3),
        31 => (0x40, 0x1, 0x1, 0x3),
        32 => (0x40, 0x1, 0x1, 0x3),
        33 => (0x0, 0x1, 0x1, 0x3),
        34 => (0x80, 0x1, 0x1, 0x3),
        35 => (0x80, 0x1, 0x1, 0x3),
        36 => (0x0, 0x1, 0x1, 0x3),
        37 => (0x1, 0x8, 0x1, 0x5),
        38 => (0x1, 0x8, 0x1, 0x6),
        39 => (0x10, 0x1, 0x1, 0x7),
        40 => (0x10, 0x1, 0x1, 0x8),
        41 => (0x20, 0x1, 0x1, 0x3),
        42 => (0x20, 0x1, 0x1, 0x3),
        43 => (0x20, 0x1, 0x1, 0x3),
        44 => (0x18, 0x3, 0x1, 0x4),
        45 => (0x30, 0x3, 0x1, 0x4),
        46 => (0x30, 0x3, 0x1, 0x4),
        47 => (0x60, 0x3, 0x1, 0x4),
        48 => (0x60, 0x3, 0x1, 0x4),
        49 => (0x40, 0x4, 0x4, 0x9),
        50 => (0x80, 0x4, 0x4, 0xa),
        51 => (0x80, 0x4, 0x4, 0xb),
        52 => (0x40, 0x4, 0x4, 0xc),
        53 => (0x40, 0x4, 0x4, 0xd),
        54 => (0x40, 0x4, 0x4, 0xd),
        55 => (0x40, 0x4, 0x4, 0xd),
        56 => (0x0, 0x1, 0x1, 0x3),
        57 => (0x0, 0x1, 0x1, 0x3),
        58 => (0x0, 0x1, 0x1, 0x3),
        59 => (0x0, 0x1, 0x1, 0x3),
        60 => (0x0, 0x1, 0x1, 0x3),
        61 => (0x0, 0x1, 0x1, 0x3),
        62 => (0x40, 0x1, 0x1, 0x3),
        63 => (0x0, 0x1, 0x1, 0x3),
        _ => (0, 0, 0, 0),
    }
}

/// `x` rounded by the mask of `align`: `!(align - 1) & (x + align - 1)`; for a power
/// of two `align` this is the least multiple of `align` that is at least `x`.
fn pow_2_align(x: u32, align: u32) -> (r: u32)
    requires
        align >= 1,
        x + align - 1 <= u32::MAX,
    ensures
        r == (!((align - 1) as u32)) & ((x + align - 1) as u32),
        align == 4 ==> r % 4 == 0 && x <= r < x + 4,
{
    let r = !(align - 1) & (x + (align - 1));
    assert(align == 4 && x + 3 <= u32::MAX ==> ((!3u32) & ((x + 3) as u32)) % 4 == 0
        && x <= ((!3u32) & ((x + 3) as u32)) && ((!3u32) & ((x + 3) as u32)) < x + 4)
        by (bit_vector);
    r
}

/// The least power of two that is at least `dim`, found by doubling from `r`.
pub open spec fn pow2_at_least(dim: int, r: int) -> int
    decreases if r < dim { dim - r } else { 0 },
    when r >= 1
{
    if r >= dim {
        r
    } else {
        pow2_at_least(dim, 2 * r)
    }
}

/// The result of `next_pow_2`: the least power of two that is at least `dim`,
/// or `0x8000_0000` where `dim` exceeds `0x7FFF_FFFF`.
pub open spec fn next_pow_2_of(dim: u32) -> u32 {
    if dim <= 0x7FFF_FFFF {
        pow2_at_least(dim as int, 1) as u32
    } else {
        0x8000_0000
    }
}

/// Whether `r` is a power of two.
pub open spec fn is_pow2(r: int) -> bool
    decreases r,
{
    if r <= 0 {
        false
    } else if r == 1 {
        true
    } else {
        r % 2 == 0 && is_pow2(r / 2)
    }
}

proof fn lemma_pow2_at_least(dim: int, r: int)
    requires
        r >= 1,
        is_pow2(r),
        r < 2 * dim || r == 1,
        dim <= 0x7FFF_FFFF,
    ensures
        is_pow2(pow2_at_least(dim, r)),
        pow2_at_least(dim, r) >= dim,
        pow2_at_least(dim, r) == 1 || pow2_at_least(dim, r) < 2 * dim,
        pow2_at_least(dim, r) >= r,
    decreases if r < dim { dim - r } else { 0 },
{
    if r < dim {
        assert(is_pow2(2 * r)) by {
            assert((2 * r) / 2 == r);
        }
        lemma_pow2_at_least(dim, 2 * r);
    }
}

/// The least power of two that is at least `dim` (`1` for `0`), or `0x8000_0000`
/// where `dim` exceeds `0x7FFF_FFFF`.
fn next_pow_2(dim: u32) -> (r: u32)
    ensures
        r == next_pow_2_of(dim),
        dim <= 0x7FFF_FFFF ==> is_pow2(r as int) && r >= dim && (r == 1 || r < 2 * dim),
{
    let mut new_dim: u32 = 1;
    if dim <= 0x7FFF_FFFF {
        proof { lemma_pow2_at_least(dim as int, 1); }
        while new_dim < dim
            invariant
                1 <= new_dim,
                dim <= 0x7FFF_FFFF,
                new_dim == 1 || new_dim < 2 * dim,
                pow2_at_least(dim as int, new_dim as int) == pow2_at_least(dim as int, 1),
            decreases if new_dim < dim { dim - new_dim } else { 0 },
        {
            new_dim = new_dim * 2;
        }
    } else {
        new_dim = 0x8000_0000;
    }
    new_dim
}

/// The larger of `1` and `x`.
pub open spec fn at_least_one(x: u32) -> u32 {
    if x >= 1 {
        x
    } else {
        1
    }
}

/// Whether bit 12 of the flags is set (the surface is the base level of a mip chain).
pub open spec fn flag_base_level(flags: u32) -> bool {
    (flags >> 12u32) & 1 == 1
}

/// Whether bit 4 of the flags is set (the surface is a cube map).
pub open spec fn flag_cube(flags: u32) -> bool {
    (flags >> 4u32) & 1 == 1
}

/// Whether the element mode and bits per pixel make a block-compressed layout.
pub open spec fn is_bcn_layout(bpp: u32, elem_mode: u32) -> bool {
    bpp != 0 && 9 <= elem_mode <= 13
}

/// What `adjust_surface_info` needs to compute without overflow or division by zero.
pub open spec fn adjust_surface_info_ok(
    width: u32,
    height: u32,
    elem_mode: u32,
    expand_x: u32,
    expand_y: u32,
    bpp: u32,
) -> bool {
    &&& (width != 0 && height != 0 && (expand_x > 1 || expand_y > 1)) ==> if elem_mode == 4 {
        expand_x * width <= u32::MAX && expand_y * height <= u32::MAX
    } else if is_bcn_layout(bpp, elem_mode) {
        expand_x != 0 && expand_y != 0
    } else {
        expand_x != 0 && expand_y != 0 && width + expand_x - 1 <= u32::MAX && height + expand_y
            - 1 <= u32::MAX
    }
    &&& (bpp != 0 && elem_mode == 4) ==> expand_x != 0 && expand_y != 0
    &&& (bpp != 0 && (elem_mode == 5 || elem_mode == 6)) ==> expand_x * expand_y * bpp
        <= u32::MAX
}

/// The width and height after `adjust_surface_info`.
pub open spec fn adjusted_dims(
    width: u32,
    height: u32,
    elem_mode: u32,
    expand_x: u32,
    expand_y: u32,
    bpp: u32,
) -> (u32, u32) {
    if width != 0 && height != 0 && (expand_x > 1 || expand_y > 1) {
        if elem_mode == 4 {
            (at_least_one((expand_x * width) as u32), at_least_one((expand_y * height) as u32))
        } else if is_bcn_layout(bpp, elem_mode) {
            (at_least_one(width / expand_x), at_least_one(height / expand_y))
        } else {
            (
                at_least_one(((width + expand_x - 1) / expand_x as int) as u32),
                at_least_one(((height + expand_y - 1) / expand_y as int) as u32),
            )
        }
    } else {
        (width, height)
    }
}

/// The bits per pixel of an element of mode `elem_mode` made of `expand_x` by
/// `expand_y` pixels of `bpp` bits.
pub open spec fn adjusted_bpp(elem_mode: u32, expand_x: u32, expand_y: u32, bpp: u32) -> u32 {
    if elem_mode == 4 {
        (bpp / expand_x / expand_y) as u32
    } else if elem_mode == 5 || elem_mode == 6 {
        (expand_x * expand_y * bpp) as u32
    } else if elem_mode == 9 || elem_mode == 12 {
        64
    } else if elem_mode == 10 || elem_mode == 11 || elem_mode == 13 {
        128
    } else {
        bpp
    }
}

/// Adjusts the dimensions and bits per pixel of `surface_in` to the element layout
/// of its format, and returns the new bits per pixel (`0` where `bpp` is `0`).
fn adjust_surface_info(
    surface_in: &mut SurfaceIn,
    elem_mode: u32,
    expand_x: u32,
    expand_y: u32,
    bpp: u32,
) -> (r: u32)
    requires
        adjust_surface_info_ok(
            old(surface_in).width,
            old(surface_in).height,
            elem_mode,
            expand_x,
            expand_y,
            bpp,
        ),
    ensures
        (final(surface_in).width, final(surface_in).height) == adjusted_dims(
            old(surface_in).width,
            old(surface_in).height,
            elem_mode,
            expand_x,
            expand_y,
            bpp,
        ),
        final(surface_in).bpp == (if bpp != 0 {
            adjusted_bpp(elem_mode, expand_x, expand_y, bpp)
        } else {
            old(surface_in).bpp
        }),
        r == (if bpp != 0 {
            adjusted_bpp(elem_mode, expand_x, expand_y, bpp)
        } else {
            0
        }),
        *final(surface_in) == (SurfaceIn {
            width: final(surface_in).width,
            height: final(surface_in).height,
            bpp: final(surface_in).bpp,
            ..*old(surface_in)
        }),
{
    let width = surface_in.width;
    let height = surface_in.height;
    let bcn_format = bpp != 0 && 9 <= elem_mode && elem_mode <= 13;

    if width != 0 && height != 0 && (expand_x > 1 || expand_y > 1) {
        let (width, height) = if elem_mode == 4 {
            (expand_x * width, expand_y * height)
        } else if bcn_format {
            (width / expand_x, height / expand_y)
        } else {
            ((width + (expand_x - 1)) / expand_x, (height + (expand_y - 1)) / expand_y)
        };
        surface_in.width = if width >= 1 { width } else { 1 };
        surface_in.height = if height >= 1 { height } else { 1 };
    }
    if bpp != 0 {
        if elem_mode == 4 {
            surface_in.bpp = bpp / expand_x / expand_y;
        } else if elem_mode == 5 || elem_mode == 6 {
            assert(expand_x * expand_y <= expand_x * expand_y * bpp) by (nonlinear_arith)
                requires
                    bpp >= 1,
            ;
            surface_in.bpp = expand_x * expand_y * bpp;
        } else if elem_mode == 9 || elem_mode == 12 {
            surface_in.bpp = 64;
        } else if elem_mode == 10 || elem_mode == 11 || elem_mode == 13 {
            surface_in.bpp = 128;
        } else {
            surface_in.bpp = bpp;
        }
        return surface_in.bpp;
    }
    0
}

/// What the hardware-level mip computation does to `s`: for a mip level other
/// than the base, the width and height (shifted down by the level where the
/// surface is the base of a mip chain) are raised to powers of two, and the
/// slices are shifted down by the level unless the surface is a cube map.
pub open spec fn hwl_mip_result(s: SurfaceIn) -> SurfaceIn {
    if s.mip_level != 0 {
        let width = if flag_base_level(s.flags) {
            at_least_one(s.width >> s.mip_level)
        } else {
            s.width
        };
        let height = if flag_base_level(s.flags) {
            at_least_one(s.height >> s.mip_level)
        } else {
            s.height
        };
        let slices = if flag_base_level(s.flags) && !flag_cube(s.flags) {
            at_least_one(s.num_slices >> s.mip_level)
        } else {
            s.num_slices
        };
        SurfaceIn {
            width: next_pow_2_of(width),
            height: next_pow_2_of(height),
            num_slices: slices,
            ..s
        }
    } else {
        s
    }
}

/// The hardware-level mip computation. The format test `49 <= format || format <= 55`
/// holds of every format, so it always applies and returns `true`.
fn hwl_compute_mip_level(surface_in: &mut SurfaceIn) -> (r: bool)
    requires
        old(surface_in).mip_level != 0 && flag_base_level(old(surface_in).flags)
            ==> old(surface_in).mip_level < 32,
    ensures
        r,
        *final(surface_in) == hwl_mip_result(*old(surface_in)),
{
    let ghost flags = surface_in.flags;
    assert(((flags >> 4u32) & 1 == 0) == !((flags >> 4u32) & 1 == 1)) by (bit_vector);
    if 49 <= surface_in.format || surface_in.format <= 55 {
        if surface_in.mip_level != 0 {
            let mut width = surface_in.width;
            let mut height = surface_in.height;
            let mut slices = surface_in.num_slices;

            if ((surface_in.flags >> 12) & 1) == 1 {
                let w = width >> surface_in.mip_level;
                width = if w >= 1 { w } else { 1 };
                let h = height >> surface_in.mip_level;
                height = if h >= 1 { h } else { 1 };

                if ((surface_in.flags >> 4) & 1) == 0 {
                    let sl = slices >> surface_in.mip_level;
                    slices = if sl >= 1 { sl } else { 1 };
                }
            }
            surface_in.width = next_pow_2(width);
            surface_in.height = next_pow_2(height);
            surface_in.num_slices = slices;
        }
        true
    } else {
        false
    }
}

/// What the mip computation needs: no overflow in the alignment and no shift by 32 or more.
pub open spec fn compute_mip_level_ok(s: SurfaceIn) -> bool {
    &&& (s.mip_level != 0 || flag_base_level(s.flags)) ==> s.width + 3 <= u32::MAX && s.height
        + 3 <= u32::MAX
    &&& (s.mip_level != 0 && flag_base_level(s.flags)) ==> s.mip_level < 32
}

/// What the mip computation does to `s`: for a mip level other than the base,
/// or for the base of a mip chain, the width and height are aligned to four;
/// then the hardware-level computation applies.
pub open spec fn mip_level_result(s: SurfaceIn) -> SurfaceIn {
    let aligned = if s.mip_level != 0 || flag_base_level(s.flags) {
        SurfaceIn {
            width: (!3u32) & ((s.width + 3) as u32),
            height: (!3u32) & ((s.height + 3) as u32),
            ..s
        }
    } else {
        s
    };
    hwl_mip_result(aligned)
}

/// The mip computation of the address library on `surface_in`.
fn compute_mip_level(surface_in: &mut SurfaceIn)
    requires
        compute_mip_level_ok(*old(surface_in)),
    ensures
        *final(surface_in) == mip_level_result(*old(surface_in)),
{
    if (49 <= surface_in.format || surface_in.format <= 55) && (surface_in.mip_level != 0 || ((
    surface_in.flags >> 12) & 1) == 1) {
        surface_in.width = pow_2_align(surface_in.width, 4);
        surface_in.height = pow_2_align(surface_in.height, 4);
    }
    let hwl_handled = hwl_compute_mip_level(surface_in);
    if !hwl_handled && surface_in.mip_level != 0 && ((surface_in.flags >> 12) & 1) == 1 {
        let w = surface_in.width >> surface_in.mip_level;
        let mut width = if w >= 1 { w } else { 1 };
        let h = surface_in.height >> surface_in.mip_level;
        let mut height = if h >= 1 { h } else { 1 };
        let mut slices = if surface_in.num_slices >= 1 { surface_in.num_slices } else { 1 };

        if ((surface_in.flags >> 4) & 1) == 0 {
            let sl = slices >> surface_in.mip_level;
            slices = if sl >= 1 { sl } else { 1 };
        }

        if surface_in.format != 47 && surface_in.format != 48 {
            width = next_pow_2(width);
            height = next_pow_2(height);
            slices = next_pow_2(slices);
        }
        surface_in.width = width;
        surface_in.height = height;
        surface_in.num_slices = slices;
    }
}

/// The inputs on which the surface computation returns: those on which it reports
/// a corrupt texture. On every other input it stops unfinished.
pub open spec fn compute_surface_info_returns(s: SurfaceIn) -> bool {
    s.bpp > 0x80 || (s.format == 0 && s.bpp == 0 && compute_mip_level_ok(s))
}

/// The surface computation. It rejects a surface with more than `0x80` bits per
/// pixel, and a surface with neither a format nor bits per pixel, after recording
/// the bits per pixel in `surface_out`; on any other surface it stops unfinished,
/// so only the rejected surfaces are admitted.
fn compute_surface_info(surface_in: SurfaceIn, surface_out: &mut SurfaceOut) -> (r: Result<
    (),
    ReadError,
>)
    requires
        compute_surface_info_returns(surface_in),
    ensures
        r is Err,
        surface_in.bpp > 0x80 ==> *final(surface_out) == *old(surface_out),
        surface_in.bpp <= 0x80 ==> *final(surface_out) == (SurfaceOut {
            pixel_bits: surface_in.bpp,
            ..*old(surface_out)
        }),
{
    let mut surface_in = surface_in;
    if surface_in.bpp > 0x80 {
        return Err(ReadError);
    }
    compute_mip_level(&mut surface_in);

    surface_out.pixel_bits = surface_in.bpp;

    if surface_in.format != 0 {
        let (bpp, expand_x, expand_y, elem_mode) = get_bits_per_pixel(surface_in.format);
        if elem_mode == 4 && expand_x == 3 && surface_in.tile_mode == 1 {
            surface_in.flags = surface_in.flags | 0x200;
        }
        let _bpp = adjust_surface_info(&mut surface_in, elem_mode, expand_x, expand_y, bpp);
        unreached()
    } else if surface_in.bpp != 0 {
        surface_in.width = if surface_in.width >= 1 { surface_in.width } else { 1 };
        surface_in.height = if surface_in.height >= 1 { surface_in.height } else { 1 };
        unreached()
    } else {
        Err(ReadError)
    }
}

/// The input that `get_surface_info` hands to the surface computation.
pub open spec fn surface_in_for(
    surface_format: Format,
    surface_width: u32,
    surface_tile_mode: u32,
    level: u32,
) -> SurfaceIn {
    let hw = hw_format(surface_format.code());
    SurfaceIn {
        size: 60,
        tile_mode: surface_tile_mode & 0xF,
        format: hw,
        bpp: hw_format_bpp(hw),
        num_samples: 1,
        width: at_least_one(surface_width >> level),
        height: 0,
        num_slices: 0,
        slice: 1,
        mip_level: level,
        flags: if level == 0 { 0x1000 } else { 0 },
        num_frags: 1,
        tile_info: TileInfo {
            banks: 0,
            bank_width: 0,
            bank_height: 0,
            macro_aspect_ratio: 0,
            tile_split_bytes: 0,
            pipe_config: 0,
        },
        tile_index: 0,
    }
}

/// The surface information of mip `level` of a surface. The computation is
/// unfinished: it returns only where the surface computation rejects the surface
/// (too many bits per pixel, or neither a format nor bits per pixel), and stops
/// unfinished on every other input; so only those inputs are admitted. No `Format`
/// is among them: each has at most `0x80` bits per pixel and a non-zero hardware format.
pub fn get_surface_info(
    surface_format: Format,
    surface_width: u32,
    surface_height: u32,
    surface_depth: u32,
    surface_dim: u32,
    surface_tile_mode: u32,
    level: u32,
) -> (r: Result<SurfaceOut, ReadError>)
    requires
        surface_tile_mode != 16,
        level < 32,
        compute_surface_info_returns(
            surface_in_for(surface_format, surface_width, surface_tile_mode, level),
        ),
    ensures
        r is Err,
{
    let hw_format = surface_format.value() & 0x3F;
    let mut surface_out = SurfaceOut { size: 96, ..SurfaceOut::default() };
    if surface_tile_mode == 16 {
        let block_size: u32 = if 0x31 <= hw_format && hw_format <= 0x35 { 4 } else { 1 };
        let shifted = surface_width >> level;
        let base = if shifted >= 1 { shifted } else { 1 };
        let width = !(block_size - 1) & (base + block_size - 1);
        surface_out.bpp = hw_bpp(hw_format);
        surface_out.pitch = width / block_size;
        surface_out.pixel_bits = hw_bpp(hw_format);
        surface_out.base_align = 1;
        surface_out.pitch_align = 1;
        surface_out.height_align = 1;
        surface_out.depth_align = 1;
        unreached()
    } else {
        let shifted = surface_width >> level;
        let mut surface_in = SurfaceIn {
            size: 60,
            tile_mode: surface_tile_mode & 0xF,
            format: hw_format,
            bpp: hw_bpp(hw_format),
            num_samples: 1,
            num_frags: 1,
            width: if shifted >= 1 { shifted } else { 1 },
            slice: 1,
            mip_level: level,
            ..SurfaceIn::default()
        };
        if level == 0 {
            surface_in.flags = (1 << 12) | (surface_in.flags & 0xFFFF_EFFF);
        } else {
            surface_in.flags = surface_in.flags & 0xFFFF_EFFF;
        }
        match compute_surface_info(surface_in, &mut surface_out) {
            Err(e) => Err(e),
            Ok(()) => unreached(),
        }
    }
}

} // verus!
