//! The lines that outline the chunk the camera stands in: red at its
//! corners, blue along its edges at every block, yellow around it at every
//! section boundary.

use vstd::prelude::*;

verus! {

/// The colour of a border line.
#[derive(Clone, Copy, PartialEq, Eq, Debug, Structural)]
pub enum BorderColor {
    /// The four corners of the chunk.
    Red,
    /// Every block along the chunk's edges.
    Blue,
    /// The section boundaries.
    Yellow,
}

/// A line between two points in block coordinates.
#[derive(Clone, Copy, PartialEq, Eq, Debug, Structural)]
pub struct BorderLine {
    pub x0: i64,
    pub y0: i64,
    pub z0: i64,
    pub x1: i64,
    pub y1: i64,
    pub z1: i64,
    pub color: BorderColor,
}

/// The vertex buffer holds this many vertices, two per line.
pub const MAX_VERTS: usize = 4096;

/// The width of a chunk in blocks.
pub const CHUNK: i64 = 16;

/// The first block of the chunk that holds block `b`: `b` rounded down to a
/// multiple of 16.
pub open spec fn spec_chunk_origin(b: int) -> int {
    (b / 16) * 16
}

/// The first block of the chunk that holds block `b`.
pub fn chunk_origin(b: i32) -> (r: i64)
    ensures
        r == spec_chunk_origin(b as int),
{
    let x = b as i64;
    if x >= 0 {
        (x / 16) * 16
    } else {
        let q = (-x + 15) / 16;
        assert(q == -(x / 16)) by (nonlinear_arith)
            requires
                x < 0,
                q == (-x + 15) / 16,
        ;
        -q * 16
    }
}

/// A vertical line from `y0` to `y1` at `x`, `z`.
pub open spec fn vertical(x: int, z: int, y0: int, y1: int, color: BorderColor) -> BorderLine {
    BorderLine {
        x0: x as i64,
        y0: y0 as i64,
        z0: z as i64,
        x1: x as i64,
        y1: y1 as i64,
        z1: z as i64,
        color,
    }
}

/// The red lines at the four corners, from `min_y` to `max_y`.
pub open spec fn corner_lines(cx: int, cz: int, min_y: int, max_y: int) -> Seq<BorderLine> {
    seq![
        vertical(cx, cz, min_y, max_y, BorderColor::Red),
        vertical(cx, cz + 16, min_y, max_y, BorderColor::Red),
        vertical(cx + 16, cz, min_y, max_y, BorderColor::Red),
        vertical(cx + 16, cz + 16, min_y, max_y, BorderColor::Red),
    ]
}

/// The four blue lines `d` blocks along the edges.
pub open spec fn edge_lines(cx: int, cz: int, min_y: int, max_y: int, d: int) -> Seq<BorderLine> {
    seq![
        vertical(cx + d, cz, min_y, max_y, BorderColor::Blue),
        vertical(cx + d, cz + 16, min_y, max_y, BorderColor::Blue),
        vertical(cx, cz + d, min_y, max_y, BorderColor::Blue),
        vertical(cx + 16, cz + d, min_y, max_y, BorderColor::Blue),
    ]
}

/// The blue lines 1 to `n` blocks along the edges.
pub open spec fn edges_upto(cx: int, cz: int, min_y: int, max_y: int, n: int) -> Seq<BorderLine>
    decreases n,
{
    if n <= 0 {
        Seq::empty()
    } else {
        edges_upto(cx, cz, min_y, max_y, n - 1) + edge_lines(cx, cz, min_y, max_y, n)
    }
}

/// The four yellow lines around the chunk at height `y`.
pub open spec fn section_lines(cx: int, cz: int, y: int) -> Seq<BorderLine> {
    let (x0, x1, z0, z1) = (cx as i64, (cx + 16) as i64, cz as i64, (cz + 16) as i64);
    let yy = y as i64;
    seq![
        BorderLine { x0, y0: yy, z0, x1, y1: yy, z1: z0, color: BorderColor::Yellow },
        BorderLine { x0, y0: yy, z0: z1, x1, y1: yy, z1, color: BorderColor::Yellow },
        BorderLine { x0, y0: yy, z0, x1: x0, y1: yy, z1, color: BorderColor::Yellow },
        BorderLine { x0: x1, y0: yy, z0, x1, y1: yy, z1, color: BorderColor::Yellow },
    ]
}

/// The yellow lines of the first `n` section boundaries from `min_y` up.
pub open spec fn sections_upto(cx: int, cz: int, min_y: int, n: int) -> Seq<BorderLine>
    decreases n,
{
    if n <= 0 {
        Seq::empty()
    } else {
        sections_upto(cx, cz, min_y, n - 1) + section_lines(cx, cz, min_y + (n - 1) * 16)
    }
}

/// The number of section boundaries drawn: one every 16 blocks from `min_y`
/// up to `max_y`, counting both ends; none when `max_y` lies 16 or more
/// below `min_y`.
pub open spec fn section_count(min_y: int, max_y: int) -> int {
    let span = max_y - min_y;
    let q = if span >= 0 {
        span / 16
    } else {
        -((-span) / 16)
    };
    if q >= 0 {
        q + 1
    } else {
        0
    }
}

/// Every border line of the chunk whose first block is `cx`, `cz`, between
/// heights `min_y` and `max_y`: corners, edges, then sections.
pub open spec fn spec_border_lines(cx: int, cz: int, min_y: int, max_y: int) -> Seq<BorderLine> {
    corner_lines(cx, cz, min_y, max_y) + edges_upto(cx, cz, min_y, max_y, 15) + sections_upto(
        cx,
        cz,
        min_y,
        section_count(min_y, max_y),
    )
}

/// The border lines of the chunk whose first block is `cx`, `cz`, between
/// heights `min_y` and `max_y`.
pub fn border_lines(cx: i64, cz: i64, min_y: i32, max_y: i32) -> (lines: Vec<BorderLine>)
    requires
        -0x1_0000_0000 <= cx <= 0x1_0000_0000,
        -0x1_0000_0000 <= cz <= 0x1_0000_0000,
    ensures
        lines@ == spec_border_lines(cx as int, cz as int, min_y as int, max_y as int),
{
    let lo = min_y as i64;
    let hi = max_y as i64;
    let mut lines: Vec<BorderLine> = Vec::new();
    lines.push(BorderLine { x0: cx, y0: lo, z0: cz, x1: cx, y1: hi, z1: cz, color: BorderColor::Red });
    lines.push(BorderLine { x0: cx, y0: lo, z0: cz + 16, x1: cx, y1: hi, z1: cz + 16, color: BorderColor::Red });
    lines.push(BorderLine { x0: cx + 16, y0: lo, z0: cz, x1: cx + 16, y1: hi, z1: cz, color: BorderColor::Red });
    lines.push(BorderLine { x0: cx + 16, y0: lo, z0: cz + 16, x1: cx + 16, y1: hi, z1: cz + 16, color: BorderColor::Red });
    let ghost corners = corner_lines(cx as int, cz as int, lo as int, hi as int);
    assert(lines@ =~= corners);
    let mut d: i64 = 1;
    while d < 16
        invariant
            1 <= d <= 16,
            -0x1_0000_0000 <= cx <= 0x1_0000_0000,
            -0x1_0000_0000 <= cz <= 0x1_0000_0000,
            lo == min_y as i64,
            hi == max_y as i64,
            lines@ == corners + edges_upto(cx as int, cz as int, lo as int, hi as int, d - 1),
        decreases 16 - d,
    {
        let ghost before = lines@;
        lines.push(BorderLine { x0: cx + d, y0: lo, z0: cz, x1: cx + d, y1: hi, z1: cz, color: BorderColor::Blue });
        lines.push(BorderLine { x0: cx + d, y0: lo, z0: cz + 16, x1: cx + d, y1: hi, z1: cz + 16, color: BorderColor::Blue });
        lines.push(BorderLine { x0: cx, y0: lo, z0: cz + d, x1: cx, y1: hi, z1: cz + d, color: BorderColor::Blue });
        lines.push(BorderLine { x0: cx + 16, y0: lo, z0: cz + d, x1: cx + 16, y1: hi, z1: cz + d, color: BorderColor::Blue });
        assert(lines@ =~= before + edge_lines(cx as int, cz as int, lo as int, hi as int, d as int));
        d = d + 1;
    }
    let ghost with_edges = lines@;
    let span = hi - lo;
    let q = if span >= 0 {
        span / 16
    } else {
        -((-span) / 16)
    };
    let count: i64 = if q >= 0 {
        q + 1
    } else {
        0
    };
    assert(count == section_count(min_y as int, max_y as int));
    assert(count <= 0x2000_0000);
    let mut s: i64 = 0;
    while s < count
        invariant
            0 <= s <= count,
            count <= 0x2000_0000,
            -0x1_0000_0000 <= cx <= 0x1_0000_0000,
            -0x1_0000_0000 <= cz <= 0x1_0000_0000,
            lo == min_y as i64,
            lines@ == with_edges + sections_upto(cx as int, cz as int, lo as int, s as int),
        decreases count - s,
    {
        let y = lo + s * 16;
        let (x0, x1, z0, z1) = (cx, cx + 16, cz, cz + 16);
        let ghost before = lines@;
        lines.push(BorderLine { x0, y0: y, z0, x1, y1: y, z1: z0, color: BorderColor::Yellow });
        lines.push(BorderLine { x0, y0: y, z0: z1, x1, y1: y, z1, color: BorderColor::Yellow });
        lines.push(BorderLine { x0, y0: y, z0, x1: x0, y1: y, z1, color: BorderColor::Yellow });
        lines.push(BorderLine { x0: x1, y0: y, z0, x1, y1: y, z1, color: BorderColor::Yellow });
        assert(lines@ =~= before + section_lines(cx as int, cz as int, lo + s * 16));
        s = s + 1;
    }
    lines
}

/// How many vertices of `line_count` lines fit the vertex buffer.
pub fn uploaded_vertex_count(line_count: usize) -> (n: usize)
    ensures
        n as int == if 2 * line_count < MAX_VERTS {
            2 * line_count
        } else {
            MAX_VERTS as int
        },
{
    if line_count < MAX_VERTS / 2 {
        2 * line_count
    } else {
        MAX_VERTS
    }
}

/// A blue vertical line at block `x`, `z`, from `min_y` to `max_y`.
pub open spec fn blue_at(x: int, z: int, min_y: int, max_y: int) -> BorderLine {
    BorderLine {
        x0: x as i64,
        y0: min_y as i64,
        z0: z as i64,
        x1: x as i64,
        y1: max_y as i64,
        z1: z as i64,
        color: BorderColor::Blue,
    }
}

proof fn lemma_edges_index(cx: int, cz: int, min_y: int, max_y: int, n: int, d: int, k: int)
    requires
        1 <= d <= n,
        0 <= k < 4,
    ensures
        edges_upto(cx, cz, min_y, max_y, n).len() == 4 * n,
        edges_upto(cx, cz, min_y, max_y, n)[4 * (d - 1) + k] == edge_lines(cx, cz, min_y, max_y, d)[k],
    decreases n,
{
    lemma_edges_len(cx, cz, min_y, max_y, n);
    lemma_edges_len(cx, cz, min_y, max_y, n - 1);
    if d < n {
        lemma_edges_index(cx, cz, min_y, max_y, n - 1, d, k);
    }
}

/// Law: every block along each of the four edges of the chunk, one to
/// fifteen blocks from a corner, has its blue line: on the edges `z = cz`
/// and `z = cz + 16` at `x = cx + d`, and on the edges `x = cx` and
/// `x = cx + 16` at `z = cz + d`.
pub proof fn lemma_blue_line_at_every_edge_block(cx: int, cz: int, min_y: int, max_y: int, d: int)
    requires
        1 <= d <= 15,
    ensures
        spec_border_lines(cx, cz, min_y, max_y).contains(blue_at(cx + d, cz, min_y, max_y)),
        spec_border_lines(cx, cz, min_y, max_y).contains(blue_at(cx + d, cz + 16, min_y, max_y)),
        spec_border_lines(cx, cz, min_y, max_y).contains(blue_at(cx, cz + d, min_y, max_y)),
        spec_border_lines(cx, cz, min_y, max_y).contains(blue_at(cx + 16, cz + d, min_y, max_y)),
{
    let l = spec_border_lines(cx, cz, min_y, max_y);
    let e = edges_upto(cx, cz, min_y, max_y, 15);
    let base = 4 + 4 * (d - 1);
    lemma_edges_index(cx, cz, min_y, max_y, 15, d, 0);
    lemma_edges_index(cx, cz, min_y, max_y, 15, d, 1);
    lemma_edges_index(cx, cz, min_y, max_y, 15, d, 2);
    lemma_edges_index(cx, cz, min_y, max_y, 15, d, 3);
    assert(l[base] == e[4 * (d - 1)]);
    assert(l[base + 1] == e[4 * (d - 1) + 1]);
    assert(l[base + 2] == e[4 * (d - 1) + 2]);
    assert(l[base + 3] == e[4 * (d - 1) + 3]);
    assert(l[base] == blue_at(cx + d, cz, min_y, max_y));
    assert(l[base + 1] == blue_at(cx + d, cz + 16, min_y, max_y));
    assert(l[base + 2] == blue_at(cx, cz + d, min_y, max_y));
    assert(l[base + 3] == blue_at(cx + 16, cz + d, min_y, max_y));
}

/// A vertical line at block `x`, `z` in `color`, from `min_y` to `max_y`.
pub open spec fn upright(x: int, z: int, min_y: int, max_y: int, color: BorderColor) -> BorderLine {
    BorderLine {
        x0: x as i64,
        y0: min_y as i64,
        z0: z as i64,
        x1: x as i64,
        y1: max_y as i64,
        z1: z as i64,
        color,
    }
}

/// A horizontal yellow line at height `y` from `x0`, `z0` to `x1`, `z1`.
pub open spec fn ring_side(x0: int, z0: int, x1: int, z1: int, y: int) -> BorderLine {
    BorderLine {
        x0: x0 as i64,
        y0: y as i64,
        z0: z0 as i64,
        x1: x1 as i64,
        y1: y as i64,
        z1: z1 as i64,
        color: BorderColor::Yellow,
    }
}

proof fn lemma_sections_index(cx: int, cz: int, min_y: int, n: int, s: int, k: int)
    requires
        0 <= s < n,
        0 <= k < 4,
    ensures
        sections_upto(cx, cz, min_y, n).len() == 4 * n,
        sections_upto(cx, cz, min_y, n)[4 * s + k] == section_lines(cx, cz, min_y + s * 16)[k],
    decreases n,
{
    lemma_sections_len(cx, cz, min_y, n);
    lemma_sections_len(cx, cz, min_y, n - 1);
    if s < n - 1 {
        lemma_sections_index(cx, cz, min_y, n - 1, s, k);
    }
}

/// Law: the outline starts with the four red corner lines, from `min_y` to
/// `max_y`, and for every section boundary `s` it draws, at height
/// `min_y + 16 s`, a yellow ring of four lines along the chunk's sides.
pub proof fn lemma_corners_and_rings(cx: int, cz: int, min_y: int, max_y: int, s: int)
    ensures
        spec_border_lines(cx, cz, min_y, max_y).contains(upright(cx, cz, min_y, max_y, BorderColor::Red)),
        spec_border_lines(cx, cz, min_y, max_y).contains(upright(cx + 16, cz, min_y, max_y, BorderColor::Red)),
        spec_border_lines(cx, cz, min_y, max_y).contains(upright(cx, cz + 16, min_y, max_y, BorderColor::Red)),
        spec_border_lines(cx, cz, min_y, max_y).contains(
            upright(cx + 16, cz + 16, min_y, max_y, BorderColor::Red),
        ),
        0 <= s < section_count(min_y, max_y) ==> {
            let l = spec_border_lines(cx, cz, min_y, max_y);
            let y = min_y + 16 * s;
            &&& l.contains(ring_side(cx, cz, cx + 16, cz, y))
            &&& l.contains(ring_side(cx, cz + 16, cx + 16, cz + 16, y))
            &&& l.contains(ring_side(cx, cz, cx, cz + 16, y))
            &&& l.contains(ring_side(cx + 16, cz, cx + 16, cz + 16, y))
        },
{
    let l = spec_border_lines(cx, cz, min_y, max_y);
    lemma_edges_len(cx, cz, min_y, max_y, 15);
    assert(l[0] == upright(cx, cz, min_y, max_y, BorderColor::Red));
    assert(l[1] == upright(cx, cz + 16, min_y, max_y, BorderColor::Red));
    assert(l[2] == upright(cx + 16, cz, min_y, max_y, BorderColor::Red));
    assert(l[3] == upright(cx + 16, cz + 16, min_y, max_y, BorderColor::Red));
    let n = section_count(min_y, max_y);
    if 0 <= s < n {
        let y = min_y + 16 * s;
        let b = 64 + 4 * s;
        lemma_sections_index(cx, cz, min_y, n, s, 0);
        lemma_sections_index(cx, cz, min_y, n, s, 1);
        lemma_sections_index(cx, cz, min_y, n, s, 2);
        lemma_sections_index(cx, cz, min_y, n, s, 3);
        assert(l[b] == ring_side(cx, cz, cx + 16, cz, y));
        assert(l[b + 1] == ring_side(cx, cz + 16, cx + 16, cz + 16, y));
        assert(l[b + 2] == ring_side(cx, cz, cx, cz + 16, y));
        assert(l[b + 3] == ring_side(cx + 16, cz, cx + 16, cz + 16, y));
    }
}

/// Law: the chunk outline always has its 4 corner lines and 60 edge lines,
/// then four lines for each section boundary.
pub proof fn lemma_border_line_count(cx: int, cz: int, min_y: int, max_y: int)
    ensures
        spec_border_lines(cx, cz, min_y, max_y).len() == 64 + 4 * section_count(min_y, max_y),
{
    lemma_edges_len(cx, cz, min_y, max_y, 15);
    lemma_sections_len(cx, cz, min_y, section_count(min_y, max_y));
}

proof fn lemma_edges_len(cx: int, cz: int, min_y: int, max_y: int, n: int)
    requires
        n >= 0,
    ensures
        edges_upto(cx, cz, min_y, max_y, n).len() == 4 * n,
    decreases n,
{
    if n > 0 {
        lemma_edges_len(cx, cz, min_y, max_y, n - 1);
    }
}

proof fn lemma_sections_len(cx: int, cz: int, min_y: int, n: int)
    requires
        n >= 0,
    ensures
        sections_upto(cx, cz, min_y, n).len() == 4 * n,
    decreases n,
{
    if n > 0 {
        lemma_sections_len(cx, cz, min_y, n - 1);
    }
}

} // verus!
