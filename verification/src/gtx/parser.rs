//! Parsing of GFD files: the header, the blocks, and the pairing of surfaces with their data.
use vstd::prelude::*;
use crate::bytes::{be32_at, read_u32_at};
use crate::error::ReadError;
use crate::layout::{
    FieldKind, Fld, dec_run, read_run, flds_view, fu32, get_u32, repeat,
    push_repeat, lemma_dec_run_fits,
};
use super::types::{
    Block, Format, GfdHeader, Gtx, Gx2Surface, Image, TileMode, BLOCK_MAGIC, GFD_GPU_VERSION,
    GFD_MAGIC, is_format_code,
};

verus! {

/// Decoding `n` big-endian `u32`s advances the position by `4 * n`.
pub proof fn lemma_dec_run_u32s(n: nat, s: Seq<u8>, p: int)
    ensures
        dec_run(repeat(FieldKind::U32, n), s, p) matches Some((fs, q)) ==> q == p + 4 * n,
    decreases n,
{
    if n > 0 {
        assert(repeat(FieldKind::U32, n).drop_last() =~= repeat(FieldKind::U32, (n - 1) as nat));
        lemma_dec_run_u32s((n - 1) as nat, s, p);
    }
}

/// The layout of a GFD header: eight `u32be`.
pub open spec fn gfd_layout() -> Seq<FieldKind> {
    repeat(FieldKind::U32, 8)
}

/// The header fields as the format requires them: the magic, a size of `0x20`,
/// version 7.1, the GPU version, and two reserved zeros.
pub open spec fn gfd_ok(fs: Seq<Fld>) -> bool {
    &&& fu32(fs[0]) == GFD_MAGIC
    &&& fu32(fs[1]) == 0x20
    &&& fu32(fs[2]) == 7
    &&& fu32(fs[3]) == 1
    &&& fu32(fs[4]) == GFD_GPU_VERSION
    &&& fu32(fs[6]) == 0
    &&& fu32(fs[7]) == 0
}

/// The GFD header at `s[p..]` and the position after it.
pub open spec fn gfd_header_at(s: Seq<u8>, p: int) -> Option<(GfdHeader, int)> {
    match dec_run(gfd_layout(), s, p) {
        Some((fs, q)) => if gfd_ok(fs) {
            Some((GfdHeader { align_mode: fu32(fs[5]) }, q))
        } else {
            None
        },
        None => None,
    }
}

fn u32_layout(n: usize) -> (r: Vec<FieldKind>)
    ensures
        r@ == repeat(FieldKind::U32, n as nat),
{
    let mut v: Vec<FieldKind> = Vec::new();
    push_repeat(&mut v, FieldKind::U32, n);
    assert(v@ =~= repeat(FieldKind::U32, n as nat));
    v
}

impl GfdHeader {
    /// Parses the GFD header at `data[position..]`; returns it and the position after it.
    pub fn deserialize_at(data: &[u8], position: usize) -> (r: Result<(GfdHeader, usize), ReadError>)
        ensures
            match gfd_header_at(data@, position as int) {
                Some((h, q)) => r matches Ok((h2, q2)) && h2 == h && q2 == q,
                None => r is Err,
            },
    {
        let layout = u32_layout(8);
        match read_run(layout.as_slice(), data, position) {
            Some((fs, q)) => {
                proof { lemma_dec_run_fits(gfd_layout(), data@, position as int); }
                let magic = get_u32(&fs, 0);
                let size = get_u32(&fs, 1);
                let major_version = get_u32(&fs, 2);
                let minor_version = get_u32(&fs, 3);
                let gpu_version = get_u32(&fs, 4);
                let align_mode = get_u32(&fs, 5);
                let reserved1 = get_u32(&fs, 6);
                let reserved2 = get_u32(&fs, 7);
                if magic == GFD_MAGIC && size == 0x20 && major_version == 7 && minor_version == 1
                    && gpu_version == GFD_GPU_VERSION && reserved1 == 0 && reserved2 == 0 {
                    Ok((GfdHeader { align_mode }, q))
                } else {
                    Err(ReadError)
                }
            },
            None => Err(ReadError),
        }
    }
}

/// The layout of a surface: 29 `u32be` (dimensions, format, sizes, tiling and
/// the 13 mip offsets), then 16, 4 and 20 raw bytes.
pub open spec fn surface_layout() -> Seq<FieldKind> {
    repeat(FieldKind::U32, 29) + seq![
        FieldKind::Fixed(16),
        FieldKind::Fixed(4),
        FieldKind::Fixed(20),
    ]
}

/// The surface fields as the format requires them: at most 13 mips, a known
/// format, no anti-aliasing, and a tiling mode of at most 19.
pub open spec fn surface_ok(fs: Seq<Fld>) -> bool {
    &&& fu32(fs[4]) <= 13
    &&& is_format_code(fu32(fs[5]))
    &&& fu32(fs[6]) == 0
    &&& fu32(fs[12]) <= 19
}

/// The size in bytes of the base image of a surface, computed with wrapping
/// arithmetic: whole 4x4 blocks for the block-compressed formats.
pub open spec fn real_size_of(format: Format, width: u32, height: u32) -> u32 {
    let bytes = (format.bits_per_pixel() / 8) as nat;
    if 0x31 <= format.code() % 64 <= 0x35 {
        let bw = (((width + 3) % 0x1_0000_0000) / 4) as nat;
        let bh = (((height + 3) % 0x1_0000_0000) / 4) as nat;
        ((((bw * bh) % 0x1_0000_0000) * bytes) % 0x1_0000_0000) as u32
    } else {
        ((((width as nat * height as nat) % 0x1_0000_0000) * bytes) % 0x1_0000_0000) as u32
    }
}

/// Whether `g` is the surface that the fields `fs` describe.
pub open spec fn surface_matches(g: Gx2Surface, fs: Seq<Fld>) -> bool {
    &&& g.dim == fu32(fs[0])
    &&& g.width == fu32(fs[1])
    &&& g.height == fu32(fs[2])
    &&& g.depth == fu32(fs[3])
    &&& g.num_mips == fu32(fs[4])
    &&& g.format.code() == fu32(fs[5])
    &&& g.use_it == fu32(fs[7])
    &&& g.image_size == fu32(fs[8])
    &&& g.image_ptr == fu32(fs[9])
    &&& g.mip_size == fu32(fs[10])
    &&& g.mip_ptr == fu32(fs[11])
    &&& g.tile_mode.code() == fu32(fs[12])
    &&& g.swizzle == fu32(fs[13])
    &&& g.alignment == fu32(fs[14])
    &&& g.pitch == fu32(fs[15])
    &&& g.mip_offsets@ == Seq::new(13, |i: int| fu32(fs[16 + i]))
    &&& g.bpp == g.format.bits_per_pixel()
    &&& g.real_size == real_size_of(g.format, g.width, g.height)
}

/// The fields of the surface at `s[p..]`, where they are well-formed, and the position after them.
pub open spec fn surface_at(s: Seq<u8>, p: int) -> Option<(Seq<Fld>, int)> {
    match dec_run(surface_layout(), s, p) {
        Some((fs, q)) => if surface_ok(fs) {
            Some((fs, q))
        } else {
            None
        },
        None => None,
    }
}

/// The tiling mode numbered `tile_mode`.
fn addr_tile_mode(tile_mode: u32) -> (r: TileMode)
    requires
        tile_mode <= 19,
    ensures
        r.code() == tile_mode,
{
    match tile_mode {
        0 => TileMode::LinearGeneral,
        1 => TileMode::LinearAligned,
        2 => TileMode::Tiled1DThin1,
        3 => TileMode::Tiled1DThick,
        4 => TileMode::Tiled2DThin1,
        5 => TileMode::Tiled2DThin2,
        6 => TileMode::Tiled2DThin4,
        7 => TileMode::Tiled2DThick,
        8 => TileMode::Tiled2BThin1,
        9 => TileMode::Tiled2BThin2,
        10 => TileMode::Tiled2BThin4,
        11 => TileMode::Tiled2BThick,
        12 => TileMode::Tiled3DThin1,
        13 => TileMode::Tiled3DThick,
        14 => TileMode::Tiled3BThin1,
        15 => TileMode::Tiled3BThick,
        16 => TileMode::Tiled2DXThick,
        17 => TileMode::Tiled3DXThick,
        18 => TileMode::PowerSave,
        _ => TileMode::Count,
    }
}

fn surface_layout_exec() -> (r: Vec<FieldKind>)
    ensures
        r@ == surface_layout(),
{
    let mut v = u32_layout(29);
    v.push(FieldKind::Fixed(16));
    v.push(FieldKind::Fixed(4));
    v.push(FieldKind::Fixed(20));
    assert(v@ =~= surface_layout());
    v
}

impl Gx2Surface {
    /// Parses the surface at `data[position..]`; returns it and the position after it.
    pub fn deserialize_at(data: &[u8], position: usize) -> (r: Result<(Gx2Surface, usize), ReadError>)
        ensures
            match surface_at(data@, position as int) {
                Some((fs, q)) => r matches Ok((g, e)) && e == q && surface_matches(g, fs),
                None => r is Err,
            },
    {
        let layout = surface_layout_exec();
        let (fs, q) = match read_run(layout.as_slice(), data, position) {
            Some(x) => x,
            None => return Err(ReadError),
        };
        proof { lemma_dec_run_fits(surface_layout(), data@, position as int); }
        let dim = get_u32(&fs, 0);
        let width = get_u32(&fs, 1);
        let height = get_u32(&fs, 2);
        let depth = get_u32(&fs, 3);
        let num_mips = get_u32(&fs, 4);
        if num_mips > 13 {
            return Err(ReadError);
        }
        let format = match Format::try_from(get_u32(&fs, 5)) {
            Ok(f) => f,
            Err(e) => return Err(e),
        };
        let aa = get_u32(&fs, 6);
        if aa != 0 {
            return Err(ReadError);
        }
        let use_it = get_u32(&fs, 7);
        let image_size = get_u32(&fs, 8);
        let image_ptr = get_u32(&fs, 9);
        let mip_size = get_u32(&fs, 10);
        let mip_ptr = get_u32(&fs, 11);
        let tile_mode = get_u32(&fs, 12);
        if tile_mode > 19 {
            return Err(ReadError);
        }
        let tile_mode = addr_tile_mode(tile_mode);
        let swizzle = get_u32(&fs, 13);
        let alignment = get_u32(&fs, 14);
        let pitch = get_u32(&fs, 15);
        let mut mip_offsets = [0u32; 13];
        let mut i: usize = 0;
        while i < 13
            invariant
                i <= 13,
                fs@.len() == 32,
                forall|j: int| 0 <= j < i ==> mip_offsets@[j] == fu32(flds_view(fs@)[16 + j]),
            decreases 13 - i,
        {
            mip_offsets[i] = get_u32(&fs, 16 + i);
            i = i + 1;
        }
        assert(mip_offsets@ =~= Seq::new(13, |j: int| fu32(flds_view(fs@)[16 + j])));
        let bpp = format.get_bpp();
        let bytes = bpp / 8;
        let real_size = if format.is_bcn() {
            (width.wrapping_add(3) / 4).wrapping_mul(height.wrapping_add(3) / 4).wrapping_mul(bytes)
        } else {
            width.wrapping_mul(height).wrapping_mul(bytes)
        };
        Ok((
            Gx2Surface {
                dim,
                width,
                height,
                depth,
                num_mips,
                format,
                use_it,
                image_size,
                image_ptr,
                mip_size,
                mip_ptr,
                tile_mode,
                swizzle,
                alignment,
                pitch,
                mip_offsets,
                bpp,
                real_size,
            },
            q,
        ))
    }
}

/// A block as decoded: a surface (by its fields), data, mips, or an unknown type.
pub enum BlockV {
    Surface(Seq<Fld>),
    Data(Seq<u8>),
    Mip(Seq<u8>),
    Unknown(u32, Seq<u8>),
}

/// The block header fields as the format requires them: the magic, a header
/// size of 32 bytes, version 1.0, and zero id and type index.
pub open spec fn block_header_ok(h: Seq<Fld>) -> bool {
    &&& fu32(h[0]) == BLOCK_MAGIC
    &&& fu32(h[1]) == 32
    &&& fu32(h[2]) == 1
    &&& fu32(h[3]) == 0
    &&& fu32(h[6]) == 0
    &&& fu32(h[7]) == 0
}

/// The block at `s[p..]`: an eight-`u32be` header, then a surface (type `0x0B`)
/// or as many bytes as the header's data size (data `0x0C`, mips `0x0D`, or any other type).
pub open spec fn block_at(s: Seq<u8>, p: int) -> Option<(BlockV, int)> {
    match dec_run(repeat(FieldKind::U32, 8), s, p) {
        Some((h, q)) => if block_header_ok(h) {
            let t = fu32(h[4]);
            let n = fu32(h[5]);
            if t == 0x0B {
                match surface_at(s, q) {
                    Some((fs, e)) => Some((BlockV::Surface(fs), e)),
                    None => None,
                }
            } else if q + n <= s.len() {
                let b = s.subrange(q, q + n);
                Some(
                    (
                        if t == 0x0C {
                            BlockV::Data(b)
                        } else if t == 0x0D {
                            BlockV::Mip(b)
                        } else {
                            BlockV::Unknown(t, b)
                        },
                        q + n,
                    ),
                )
            } else {
                None
            }
        } else {
            None
        },
        None => None,
    }
}

/// Whether `b` is the block `v`.
pub open spec fn block_matches(b: Block, v: BlockV) -> bool {
    match (b, v) {
        (Block::Surface(g), BlockV::Surface(fs)) => surface_matches(g, fs),
        (Block::Data(d), BlockV::Data(x)) => d@ == x,
        (Block::Mip(d), BlockV::Mip(x)) => d@ == x,
        (Block::Unknown(t, d), BlockV::Unknown(u, x)) => t == u && d@ == x,
        _ => false,
    }
}

pub proof fn lemma_block_advances(s: Seq<u8>, p: int)
    ensures
        block_at(s, p) matches Some((b, q)) ==> p + 32 <= q <= s.len(),
{
    lemma_dec_run_u32s(8, s, p);
    lemma_dec_run_fits(repeat(FieldKind::U32, 8), s, p);
    if let Some((h, q)) = dec_run(repeat(FieldKind::U32, 8), s, p) {
        lemma_dec_run_fits(surface_layout(), s, q);
    }
}

impl Block {
    /// Parses the block at `data[position..]`; returns it and the position after it.
    pub fn deserialize_at(data: &[u8], position: usize) -> (r: Result<(Block, usize), ReadError>)
        ensures
            match block_at(data@, position as int) {
                Some((v, q)) => r matches Ok((b, e)) && e == q && block_matches(b, v),
                None => r is Err,
            },
    {
        let layout = u32_layout(8);
        let (h, q) = match read_run(layout.as_slice(), data, position) {
            Some(x) => x,
            None => return Err(ReadError),
        };
        proof {
            lemma_dec_run_fits(repeat(FieldKind::U32, 8), data@, position as int);
            lemma_dec_run_u32s(8, data@, position as int);
        }
        let magic = get_u32(&h, 0);
        let size = get_u32(&h, 1);
        let major_version = get_u32(&h, 2);
        let minor_version = get_u32(&h, 3);
        let type_it = get_u32(&h, 4);
        let data_size = get_u32(&h, 5);
        let id = get_u32(&h, 6);
        let type_idx = get_u32(&h, 7);
        if magic != BLOCK_MAGIC || major_version != 1 || minor_version != 0 || id != 0
            || type_idx != 0 || size != 32 {
            return Err(ReadError);
        }
        if type_it == 0x0B {
            match Gx2Surface::deserialize_at(data, q) {
                Ok((g, e)) => Ok((Block::Surface(g), e)),
                Err(e) => Err(e),
            }
        } else if data_size as usize <= data.len() - q {
            let end = q + data_size as usize;
            let bytes = crate::bytes::copy_range(data, q, end);
            let block = if type_it == 0x0C {
                Block::Data(bytes)
            } else if type_it == 0x0D {
                Block::Mip(bytes)
            } else {
                Block::Unknown(type_it, bytes)
            };
            Ok((block, end))
        } else {
            Err(ReadError)
        }
    }
}

/// The blocks that follow one another from `s[p..]`, as long as the next four
/// bytes are the block magic, and the position after the last of them.
pub open spec fn blocks_at(s: Seq<u8>, p: int) -> Option<(Seq<BlockV>, int)>
    decreases s.len() - p,
{
    if !(0 <= p <= s.len()) {
        None
    } else if p + 4 > s.len() || be32_at(s, p) != BLOCK_MAGIC {
        Some((Seq::empty(), p))
    } else {
        match block_at(s, p) {
            Some((b, q)) => {
                proof {
                    lemma_block_advances(s, p);
                }
                match blocks_at(s, q) {
                    Some((bs, e)) => Some((seq![b] + bs, e)),
                    None => None,
                }
            },
            None => None,
        }
    }
}

/// The index of the first data block at or after `i`.
pub open spec fn next_data(bs: Seq<BlockV>, i: int) -> Option<int>
    decreases bs.len() - i,
{
    if i < 0 || i >= bs.len() {
        None
    } else if bs[i] is Data {
        Some(i)
    } else {
        next_data(bs, i + 1)
    }
}

pub proof fn lemma_next_data(bs: Seq<BlockV>, i: int)
    ensures
        next_data(bs, i) matches Some(j) ==> i <= j < bs.len() && bs[j] is Data,
    decreases bs.len() - i,
{
    if 0 <= i < bs.len() && !(bs[i] is Data) {
        lemma_next_data(bs, i + 1);
    }
}

/// The pairs (surface index, data index) of the images that the blocks from
/// index `i` on describe: each surface takes the next data block after it, and
/// the scan resumes two blocks after that data block; mips and unknown blocks
/// are passed over; a data block reached without a surface, or a surface with
/// no data block after it, makes the file malformed.
pub open spec fn image_pairs(bs: Seq<BlockV>, i: int) -> Option<Seq<(int, int)>>
    decreases if 0 <= i < bs.len() { bs.len() - i } else { 0 },
{
    if i < 0 || i >= bs.len() {
        Some(Seq::empty())
    } else {
        match bs[i] {
            BlockV::Surface(_) => match next_data(bs, i + 1) {
                Some(j) => {
                    proof {
                        lemma_next_data(bs, i + 1);
                    }
                    match image_pairs(bs, j + 2) {
                        Some(rest) => Some(seq![(i, j)] + rest),
                        None => None,
                    }
                },
                None => None,
            },
            BlockV::Data(_) => None,
            _ => image_pairs(bs, i + 1),
        }
    }
}

/// The GFD file at `s[p..]`: its header, its blocks, the pairing of its images,
/// and the position after its last block.
pub open spec fn gtx_at(s: Seq<u8>, p: int) -> Option<(GfdHeader, Seq<BlockV>, Seq<(int, int)>, int)> {
    match gfd_header_at(s, p) {
        Some((h, q)) => match blocks_at(s, q) {
            Some((bs, e)) => match image_pairs(bs, 0) {
                Some(pairs) => Some((h, bs, pairs, e)),
                None => None,
            },
            None => None,
        },
        None => None,
    }
}

/// The surface fields of a surface block.
pub open spec fn surface_fields(b: BlockV) -> Seq<Fld> {
    match b {
        BlockV::Surface(fs) => fs,
        _ => Seq::empty(),
    }
}

/// The bytes of a data block.
pub open spec fn data_bytes(b: BlockV) -> Seq<u8> {
    match b {
        BlockV::Data(d) => d,
        _ => Seq::empty(),
    }
}

/// Whether `g` is the GFD file with header `h` whose images are the pairs of blocks `pairs`.
pub open spec fn gtx_matches(g: Gtx, h: GfdHeader, bs: Seq<BlockV>, pairs: Seq<(int, int)>) -> bool {
    &&& g.gfd == h
    &&& g.images@.len() == pairs.len()
    &&& forall|k: int|
        0 <= k < pairs.len() ==> surface_matches(#[trigger] g.images@[k].surface, surface_fields(bs[pairs[k].0]))
            && g.images@[k].data@ == data_bytes(bs[pairs[k].1])
}

/// Reads the blocks that follow one another from `data[pos..]`.
#[verifier::rlimit(40)]
fn read_blocks(data: &[u8], pos: usize) -> (r: Result<(Vec<Block>, usize), ReadError>)
    requires
        pos <= data@.len(),
    ensures
        match blocks_at(data@, pos as int) {
            Some((bvs, e)) => r matches Ok((v, q)) && q == e && v@.len() == bvs.len() && forall|k: int|
                0 <= k < bvs.len() ==> block_matches(#[trigger] v@[k], bvs[k]),
            None => r is Err,
        },
{
    let ghost s = data@;
    let mut blocks: Vec<Block> = Vec::new();
    let ghost mut bvs: Seq<BlockV> = Seq::empty();
    let mut cur = pos;
    let ghost start = pos as int;
    loop
        invariant_except_break
            cur <= data@.len(),
            s == data@,
            start == pos as int,
            blocks@.len() == bvs.len(),
            forall|k: int| 0 <= k < bvs.len() ==> block_matches(#[trigger] blocks@[k], bvs[k]),
            blocks_at(s, start) == (match blocks_at(s, cur as int) {
                Some((rest, e)) => Some((bvs + rest, e)),
                None => None,
            }),
        ensures
            blocks@.len() == bvs.len(),
            forall|k: int| 0 <= k < bvs.len() ==> block_matches(#[trigger] blocks@[k], bvs[k]),
            blocks_at(s, start) == Some((bvs, cur as int)),
        decreases data@.len() - cur,
    {
        let at_block = match read_u32_at(data, cur) {
            Some(magic) => magic == BLOCK_MAGIC,
            None => false,
        };
        if !at_block {
            assert(blocks_at(s, cur as int) == Some((Seq::<BlockV>::empty(), cur as int)));
            assert(bvs + Seq::<BlockV>::empty() =~= bvs);
            break;
        }
        match Block::deserialize_at(data, cur) {
            Ok((b, q)) => {
                proof {
                    lemma_block_advances(s, cur as int);
                    let (bv, _) = block_at(s, cur as int).unwrap();
                    match blocks_at(s, q as int) {
                        Some((rest, e)) => {
                            assert(bvs + (seq![bv] + rest) =~= bvs.push(bv) + rest);
                        },
                        None => {},
                    }
                    bvs = bvs.push(bv);
                }
                blocks.push(b);
                cur = q;
            },
            Err(e) => {
                assert(blocks_at(s, cur as int) is None);
                assert(blocks_at(s, start) is None);
                return Err(e);
            },
        }
    }
    Ok((blocks, cur))
}

/// Pairs each surface block with the next data block after it.
fn pair_blocks(blocks: &Vec<Block>, Ghost(bvs): Ghost<Seq<BlockV>>) -> (r: Result<Vec<Image>, ReadError>)
    requires
        blocks@.len() == bvs.len(),
        forall|k: int| 0 <= k < bvs.len() ==> block_matches(#[trigger] blocks@[k], bvs[k]),
    ensures
        match image_pairs(bvs, 0) {
            Some(pairs) => r matches Ok(images) && images@.len() == pairs.len() && forall|k: int|
                0 <= k < pairs.len() ==> surface_matches(#[trigger] images@[k].surface, surface_fields(bvs[pairs[k].0]))
                    && images@[k].data@ == data_bytes(bvs[pairs[k].1]),
            None => r is Err,
        },
{
    let mut images: Vec<Image> = Vec::new();
    let ghost mut pairs: Seq<(int, int)> = Seq::empty();
    let mut index: usize = 0;
    while index < blocks.len()
        invariant
            index <= blocks@.len(),
            blocks@.len() == bvs.len(),
            forall|k: int| 0 <= k < bvs.len() ==> block_matches(#[trigger] blocks@[k], bvs[k]),
            image_pairs(bvs, 0) == (match image_pairs(bvs, index as int) {
                Some(rest) => Some(pairs + rest),
                None => None,
            }),
            images@.len() == pairs.len(),
            forall|k: int|
                0 <= k < pairs.len() ==> surface_matches(#[trigger] images@[k].surface, surface_fields(bvs[pairs[k].0]))
                    && images@[k].data@ == data_bytes(bvs[pairs[k].1]),
        decreases blocks@.len() - index,
    {
        let ghost i = index as int;
        proof { assert(block_matches(blocks@[i], bvs[i])); }
        match &blocks[index] {
            Block::Surface(hdr) => {
                let hdr = *hdr;
                let mut j = index + 1;
                proof { lemma_next_data(bvs, i + 1); }
                while j < blocks.len() && !matches!(&blocks[j], Block::Data(_))
                    invariant
                        i + 1 <= j <= blocks@.len(),
                        blocks@.len() == bvs.len(),
                        forall|k: int| 0 <= k < bvs.len() ==> block_matches(#[trigger] blocks@[k], bvs[k]),
                        next_data(bvs, i + 1) == next_data(bvs, j as int),
                    decreases blocks@.len() - j,
                {
                    proof { assert(block_matches(blocks@[j as int], bvs[j as int])); }
                    j = j + 1;
                }
                if j >= blocks.len() {
                    assert(next_data(bvs, j as int) is None);
                    return Err(ReadError);
                }
                proof { assert(block_matches(blocks@[j as int], bvs[j as int])); }
                let data_copy = match &blocks[j] {
                    Block::Data(d) => d.clone(),
                    _ => Vec::new(),
                };
                proof {
                    assert(next_data(bvs, i + 1) == Some(j as int));
                    let rest_opt = image_pairs(bvs, j + 2);
                    match rest_opt {
                        Some(rest) => {
                            assert(pairs + (seq![(i, j as int)] + rest) =~= pairs.push((i, j as int)) + rest);
                        },
                        None => {},
                    }
                    pairs = pairs.push((i, j as int));
                }
                images.push(Image { surface: hdr, data: data_copy });
                index = if blocks.len() - j >= 2 {
                    j + 2
                } else {
                    blocks.len()
                };
            },
            Block::Data(_) => {
                return Err(ReadError);
            },
            _ => {
                index = index + 1;
            },
        }
    }
    proof {
        assert(pairs + Seq::<(int, int)>::empty() =~= pairs);
    }
    Ok(images)
}

impl Gtx {
    /// Parses the GFD file at `data[position..]`; returns it and the position after its last block.
    /// The data of each image is kept tiled, as the file holds it.
    pub fn deserialize_at(data: &[u8], position: usize) -> (r: Result<(Gtx, usize), ReadError>)
        ensures
            match gtx_at(data@, position as int) {
                Some((h, bs, pairs, e)) => r matches Ok((g, q)) && q == e && gtx_matches(g, h, bs, pairs),
                None => r is Err,
            },
    {
        let (gfd, q0) = match GfdHeader::deserialize_at(data, position) {
            Ok(x) => x,
            Err(e) => return Err(e),
        };
        proof { lemma_dec_run_fits(gfd_layout(), data@, position as int); }
        let (blocks, pos) = match read_blocks(data, q0) {
            Ok(x) => x,
            Err(e) => {
                assert(blocks_at(data@, q0 as int) is None);
                return Err(e);
            },
        };
        let ghost bvs = blocks_at(data@, q0 as int).unwrap().0;
        assert(gfd_header_at(data@, position as int) == Some((gfd, q0 as int)));
        assert(blocks_at(data@, q0 as int) == Some((bvs, pos as int)));
        let images = match pair_blocks(&blocks, Ghost(bvs)) {
            Ok(images) => images,
            Err(e) => {
                assert(image_pairs(bvs, 0) is None);
                assert(gtx_at(data@, position as int) is None);
                return Err(e);
            },
        };
        let g = Gtx { gfd, images };
        proof {
            let pairs = image_pairs(bvs, 0).unwrap();
            assert(gtx_at(data@, position as int) == Some((gfd, bvs, pairs, pos as int)));
            assert(gtx_matches(g, gfd, bvs, pairs));
        }
        Ok((g, pos))
    }
}

/// The arguments with which the image data of a surface is de-tiled: dimensions
/// in pixels, or in 4x4 blocks for the block-compressed formats, and bytes per
/// pixel (per block).
#[derive(Debug, Clone, Copy, PartialEq, Eq)]
pub struct DeswizzleParams {
    pub width: u32,
    pub height: u32,
    pub depth: u32,
    pub swizzle: u32,
    pub pitch: u32,
    pub tile_mode: TileMode,
    pub bytes_per_pixel: u32,
}

/// The arguments with which the image data of the surface `hdr` is de-tiled.
pub fn deswizzle_params(hdr: &Gx2Surface) -> (r: DeswizzleParams)
    ensures
        r.bytes_per_pixel == hdr.format.bits_per_pixel() / 8,
        0x31 <= hdr.format.code() % 64 <= 0x35 ==> r.width == hdr.width / 4 && r.height
            == hdr.height / 4,
        !(0x31 <= hdr.format.code() % 64 <= 0x35) ==> r.width == hdr.width && r.height
            == hdr.height,
        r.depth == hdr.depth,
        r.swizzle == hdr.swizzle,
        r.pitch == hdr.pitch,
        r.tile_mode == hdr.tile_mode,
{
    let bpp = hdr.format.get_bpp() / 8;
    let is_bcn = hdr.format.is_bcn();
    let (width, height) = if is_bcn {
        (hdr.width / 4, hdr.height / 4)
    } else {
        (hdr.width, hdr.height)
    };
    DeswizzleParams {
        width,
        height,
        depth: hdr.depth,
        swizzle: hdr.swizzle,
        pitch: hdr.pitch,
        tile_mode: hdr.tile_mode,
        bytes_per_pixel: bpp,
    }
}

} // verus!
