//! Rasterizing one horizontal run of packed 4, 8 or 16-bit pixel data
//! into a destination row.

use vstd::prelude::*;
use byteorder::{ByteOrder, LittleEndian};
use crate::blend::{LayerBlend, layer_blend_spec};

verus! {

/// A palette, shared by the tiles and sprites that name it.
#[derive(Debug)]
pub struct Palette {
    pub entries: Vec<u16>,
}

/// A palette and the entry at which an image's colour indices start.
#[derive(Debug)]
pub struct PaletteWithOffset {
    pub palette: Palette,
    pub offset: usize,
}

/// Bytes per row of an image `width` pixels wide at `depth` bits per pixel.
pub open spec fn pitch_spec(width: int, depth: int) -> int {
    (width * depth + 7) / 8
}

/// The palette index of pixel `x` of the row at `row_start`, for the
/// indexed depths: the low nibble holds even pixels, the high nibble odd.
pub open spec fn index_at(depth: usize, data: Seq<u8>, row_start: int, x: int) -> u8 {
    if depth == 4 {
        (data[row_start + x / 2] >> ((4 * (x % 2)) as u8)) & 0xf
    } else {
        data[row_start + x]
    }
}

/// The little-endian 16-bit word of pixel `x` of a direct-colour row.
pub open spec fn direct_word(data: Seq<u8>, row_start: int, x: int) -> int {
    data[row_start + 2 * x] + 256 * data[row_start + 2 * x + 1]
}

/// The colour drawn for pixel `x` of a row, or `None` where it is
/// transparent: index 0 (or no palette) at the indexed depths, the top
/// bit set at 16 bits.
pub open spec fn source_pixel(
    depth: usize,
    data: Seq<u8>,
    row_start: int,
    x: int,
    palette: Option<PaletteWithOffset>,
) -> Option<u16> {
    if depth == 16 {
        if direct_word(data, row_start, x) < 0x8000 {
            Some(direct_word(data, row_start, x) as u16)
        } else {
            None
        }
    } else {
        match palette {
            Some(p) => {
                let idx = index_at(depth, data, row_start, x);
                if idx == 0 {
                    None
                } else {
                    Some(p.palette.entries@[p.offset + idx])
                }
            },
            None => None,
        }
    }
}

/// What a pixel that held `e` holds after source pixel `src` is drawn.
pub open spec fn drawn(op: LayerBlend, e: u16, src: Option<u16>) -> u16 {
    match src {
        Some(c) => layer_blend_spec(op, e, c),
        None => e,
    }
}

pub open spec fn valid_depth(depth: usize) -> bool {
    depth == 4 || depth == 8 || depth == 16
}

/// The palette holds an entry for every index that `depth` can express.
pub open spec fn palette_covers(palette: Option<PaletteWithOffset>, depth: usize) -> bool {
    match palette {
        Some(p) => depth == 16 || p.offset + (if depth == 4 {
            16int
        } else {
            256int
        }) <= p.palette.entries@.len(),
        None => true,
    }
}

/// The bytes of pixels `[left, left + width)` lie inside `data`.
pub open spec fn run_in_data(
    depth: usize,
    data: Seq<u8>,
    row_start: int,
    left: int,
    width: int,
) -> bool {
    0 <= row_start && row_start + pitch_spec(left + width, depth as int) <= data.len()
}

/// The row after the run `[left, left + width)` of the source was drawn
/// at `dest_start`: the run's pixels are drawn, all others kept.
pub open spec fn run_drawn(
    before: Seq<u16>,
    after: Seq<u16>,
    dest_start: int,
    depth: usize,
    data: Seq<u8>,
    row_start: int,
    left: int,
    width: int,
    palette: Option<PaletteWithOffset>,
    op: LayerBlend,
) -> bool {
    &&& after.len() == before.len()
    &&& forall|j: int|
        0 <= j < before.len() && !(dest_start <= j < dest_start + width) ==> after[j] == before[j]
    &&& forall|i: int|
        0 <= i < width ==> #[trigger] after[dest_start + i] == drawn(
            op,
            before[dest_start + i],
            source_pixel(depth, data, row_start, left + i, palette),
        )
}

/// An index-0 pixel of an indexed row is never drawn.
pub proof fn lemma_index_zero_transparent(
    depth: usize,
    data: Seq<u8>,
    row_start: int,
    x: int,
    palette: Option<PaletteWithOffset>,
)
    requires
        depth == 4 || depth == 8,
        index_at(depth, data, row_start, x) == 0,
    ensures
        source_pixel(depth, data, row_start, x, palette) is None,
        forall|op: LayerBlend, e: u16|
            drawn(op, e, #[trigger] source_pixel(depth, data, row_start, x, palette)) == e,
{
}

/// A direct-colour pixel whose top bit is set is never drawn.
pub proof fn lemma_top_bit_transparent(
    data: Seq<u8>,
    row_start: int,
    x: int,
    palette: Option<PaletteWithOffset>,
)
    requires
        direct_word(data, row_start, x) >= 0x8000,
    ensures
        source_pixel(16, data, row_start, x, palette) is None,
        forall|op: LayerBlend, e: u16|
            drawn(op, e, #[trigger] source_pixel(16, data, row_start, x, palette)) == e,
{
}

/// Relies on byteorder's `LittleEndian::read_u16`: the two bytes at
/// `pos`, least significant first. It panics on fewer than two bytes.
#[verifier::external_body]
fn read_u16_le(buf: &[u8], pos: usize) -> (r: u16)
    requires
        pos + 2 <= buf@.len(),
    ensures
        r as int == buf@[pos as int] + 256 * buf@[pos + 1],
{
    LittleEndian::read_u16(&buf[pos..pos + 2])
}

proof fn lemma_pitch(n: int, depth: int)
    requires
        n >= 0,
        depth == 4 || depth == 8 || depth == 16,
    ensures
        depth == 8 ==> pitch_spec(n, depth) == n,
        depth == 16 ==> pitch_spec(n, depth) == 2 * n,
{
    if depth == 8 {
        assert((n * 8 + 7) / 8 == n) by (nonlinear_arith)
            requires
                n >= 0,
        ;
    } else if depth == 16 {
        assert((n * 16 + 7) / 8 == 2 * n) by (nonlinear_arith)
            requires
                n >= 0,
        ;
    }
}

proof fn lemma_nibble_in_pitch(n: int, x: int)
    requires
        0 <= x < n,
    ensures
        x / 2 < pitch_spec(n, 4),
{
    assert(x / 2 < (n * 4 + 7) / 8) by (nonlinear_arith)
        requires
            0 <= x < n,
    ;
}

/// Draws pixels `[left, left + width)` of a 4-bit row at `dest_start`.
pub fn render_tile_4bit(
    dest: &mut Vec<u16>,
    dest_start: usize,
    data: &[u8],
    row_start: usize,
    left: usize,
    width: usize,
    palette: &Option<PaletteWithOffset>,
    op: LayerBlend,
)
    requires
        op.valid(),
        left + width <= usize::MAX,
        dest_start + width <= old(dest)@.len(),
        run_in_data(4, data@, row_start as int, left as int, width as int),
        palette_covers(*palette, 4),
    ensures
        run_drawn(
            old(dest)@,
            final(dest)@,
            dest_start as int,
            4,
            data@,
            row_start as int,
            left as int,
            width as int,
            *palette,
            op,
        ),
{
    let p = match palette {
        Some(p) => p,
        None => return ,
    };
    let entries_len = p.palette.entries.len();
    let data_len = data.len();
    let dest_len = dest.len();
    let mut i: usize = 0;
    while i < width
        invariant
            i <= width,
            data_len == data@.len(),
            dest_len == dest@.len(),
            dest_start + width <= dest@.len(),
            op.valid(),
            run_drawn(
                old(dest)@,
                dest@,
                dest_start as int,
                4,
                data@,
                row_start as int,
                left as int,
                i as int,
                *palette,
                op,
            ),
            run_in_data(4, data@, row_start as int, left as int, width as int),
            palette_covers(*palette, 4),
            *palette == Some(*p),
            entries_len == p.palette.entries@.len(),
            left + width <= usize::MAX,
        decreases width - i,
    {
        let x = left + i;
        proof {
            lemma_nibble_in_pitch(left + width, x as int);
        }
        let byte = data[row_start + x / 2];
        let color_index = (byte >> ((4 * (x % 2)) as u8)) & 0xf;
        assert(color_index < 16) by (bit_vector)
            requires
                color_index == (byte >> ((4 * (x % 2)) as u8)) & 0xf,
        ;
        assert(color_index == index_at(4, data@, row_start as int, x as int));
        if color_index != 0 {
            let color = p.palette.entries[p.offset + color_index as usize];
            let mut pixel = dest[dest_start + i];
            op.apply(&mut pixel, color);
            dest[dest_start + i] = pixel;
        }
        i += 1;
    }
}

/// Draws pixels `[left, left + width)` of an 8-bit row at `dest_start`.
pub fn render_tile_8bit(
    dest: &mut Vec<u16>,
    dest_start: usize,
    data: &[u8],
    row_start: usize,
    left: usize,
    width: usize,
    palette: &Option<PaletteWithOffset>,
    op: LayerBlend,
)
    requires
        op.valid(),
        dest_start + width <= old(dest)@.len(),
        run_in_data(8, data@, row_start as int, left as int, width as int),
        palette_covers(*palette, 8),
    ensures
        run_drawn(
            old(dest)@,
            final(dest)@,
            dest_start as int,
            8,
            data@,
            row_start as int,
            left as int,
            width as int,
            *palette,
            op,
        ),
{
    let p = match palette {
        Some(p) => p,
        None => return ,
    };
    let entries_len = p.palette.entries.len();
    proof {
        lemma_pitch(left + width, 8);
    }
    let data_len = data.len();
    let dest_len = dest.len();
    let mut i: usize = 0;
    while i < width
        invariant
            i <= width,
            data_len == data@.len(),
            dest_len == dest@.len(),
            dest_start + width <= dest@.len(),
            op.valid(),
            run_drawn(
                old(dest)@,
                dest@,
                dest_start as int,
                8,
                data@,
                row_start as int,
                left as int,
                i as int,
                *palette,
                op,
            ),
            row_start + left + width <= data@.len(),
            palette_covers(*palette, 8),
            *palette == Some(*p),
            entries_len == p.palette.entries@.len(),
        decreases width - i,
    {
        let x = left + i;
        let color_index = data[row_start + x];
        if color_index != 0 {
            let color = p.palette.entries[p.offset + color_index as usize];
            let mut pixel = dest[dest_start + i];
            op.apply(&mut pixel, color);
            dest[dest_start + i] = pixel;
        }
        i += 1;
    }
}

/// Draws pixels `[left, left + width)` of a 16-bit direct-colour row at
/// `dest_start`; any palette is ignored.
pub fn render_tile_16bit(
    dest: &mut Vec<u16>,
    dest_start: usize,
    data: &[u8],
    row_start: usize,
    left: usize,
    width: usize,
    palette: &Option<PaletteWithOffset>,
    op: LayerBlend,
)
    requires
        op.valid(),
        dest_start + width <= old(dest)@.len(),
        run_in_data(16, data@, row_start as int, left as int, width as int),
    ensures
        run_drawn(
            old(dest)@,
            final(dest)@,
            dest_start as int,
            16,
            data@,
            row_start as int,
            left as int,
            width as int,
            *palette,
            op,
        ),
{
    proof {
        lemma_pitch(left + width, 16);
    }
    let data_len = data.len();
    let dest_len = dest.len();
    let mut i: usize = 0;
    while i < width
        invariant
            i <= width,
            data_len == data@.len(),
            dest_len == dest@.len(),
            dest_start + width <= dest@.len(),
            op.valid(),
            run_drawn(
                old(dest)@,
                dest@,
                dest_start as int,
                16,
                data@,
                row_start as int,
                left as int,
                i as int,
                *palette,
                op,
            ),
            row_start + 2 * (left + width) <= data@.len(),
        decreases width - i,
    {
        let x = left + i;
        let color = read_u16_le(data, row_start + x * 2);
        if (color & 0x8000) == 0 {
            assert(color < 0x8000) by (bit_vector)
                requires
                    color & 0x8000 == 0,
            ;
            let mut pixel = dest[dest_start + i];
            op.apply(&mut pixel, color);
            dest[dest_start + i] = pixel;
        } else {
            assert(color >= 0x8000) by (bit_vector)
                requires
                    color & 0x8000 != 0,
            ;
        }
        i += 1;
    }
}

/// Draws pixels `[left, left + width)` of a row at `depth` bits per pixel.
pub fn render_tile_row(
    depth: usize,
    dest: &mut Vec<u16>,
    dest_start: usize,
    data: &[u8],
    row_start: usize,
    left: usize,
    width: usize,
    palette: &Option<PaletteWithOffset>,
    op: LayerBlend,
)
    requires
        valid_depth(depth),
        op.valid(),
        left + width <= usize::MAX,
        dest_start + width <= old(dest)@.len(),
        run_in_data(depth, data@, row_start as int, left as int, width as int),
        palette_covers(*palette, depth),
    ensures
        run_drawn(
            old(dest)@,
            final(dest)@,
            dest_start as int,
            depth,
            data@,
            row_start as int,
            left as int,
            width as int,
            *palette,
            op,
        ),
{
    if depth == 4 {
        render_tile_4bit(dest, dest_start, data, row_start, left, width, palette, op);
    } else if depth == 8 {
        render_tile_8bit(dest, dest_start, data, row_start, left, width, palette, op);
    } else {
        render_tile_16bit(dest, dest_start, data, row_start, left, width, palette, op);
    }
}

} // verus!
