//! The geometry of the block entities drawn as entity models: shulker boxes,
//! standing signs and single chests, in model pixels: closed, each lid
//! resting on its body. Every part is unrotated and has no parent; no cube is
//! deformed or mirrored.

use vstd::prelude::*;

verus! {

/// A box of a model part: its corner and size in pixels, relative to the
/// part's pivot, and the corner of its unfolded faces in the texture.
#[derive(Clone, Copy, PartialEq, Eq, Debug, Structural)]
pub struct ModelCube {
    pub origin_x: i32,
    pub origin_y: i32,
    pub origin_z: i32,
    pub size_x: i32,
    pub size_y: i32,
    pub size_z: i32,
    pub tex_u: u32,
    pub tex_v: u32,
}

/// A named part of a model: its pivot in pixels and its boxes.
pub struct ModelPart {
    pub name: &'static str,
    pub offset: (i32, i32, i32),
    pub cubes: Vec<ModelCube>,
}

/// The parts of a model and the size of its texture in pixels.
pub struct ModelParts {
    pub parts: Vec<ModelPart>,
    pub tex_w: u32,
    pub tex_h: u32,
}

/// A part as plain values: name, pivot and boxes.
pub open spec fn part_view(p: ModelPart) -> (Seq<char>, (i32, i32, i32), Seq<ModelCube>) {
    (p.name@, p.offset, p.cubes@)
}

/// The parts of a model as plain values, in order.
pub open spec fn parts_view(parts: Seq<ModelPart>) -> Seq<(Seq<char>, (i32, i32, i32), Seq<ModelCube>)> {
    parts.map_values(|p: ModelPart| part_view(p))
}

/// A box at `origin` of `size`, its faces at `tex` in the texture, each
/// number within the range of its field.
pub open spec fn spec_cube(origin: (int, int, int), size: (int, int, int), tex: (int, int)) -> ModelCube {
    ModelCube {
        origin_x: origin.0 as i32,
        origin_y: origin.1 as i32,
        origin_z: origin.2 as i32,
        size_x: size.0 as i32,
        size_y: size.1 as i32,
        size_z: size.2 as i32,
        tex_u: tex.0 as u32,
        tex_v: tex.1 as u32,
    }
}

fn cube(ox: i32, oy: i32, oz: i32, sx: i32, sy: i32, sz: i32, u: u32, v: u32) -> (c: ModelCube)
    ensures
        c == spec_cube((ox as int, oy as int, oz as int), (sx as int, sy as int, sz as int), (u as int, v as int)),
{
    ModelCube {
        origin_x: ox,
        origin_y: oy,
        origin_z: oz,
        size_x: sx,
        size_y: sy,
        size_z: sz,
        tex_u: u,
        tex_v: v,
    }
}

/// Where a box of a part starts and ends along each axis, in model pixels:
/// the part's pivot plus the box's corner, and that plus the box's size.
pub open spec fn x_start(p: ModelPart, c: ModelCube) -> int {
    p.offset.0 + c.origin_x
}

pub open spec fn x_end(p: ModelPart, c: ModelCube) -> int {
    x_start(p, c) + c.size_x
}

pub open spec fn y_start(p: ModelPart, c: ModelCube) -> int {
    p.offset.1 + c.origin_y
}

pub open spec fn y_end(p: ModelPart, c: ModelCube) -> int {
    y_start(p, c) + c.size_y
}

pub open spec fn z_start(p: ModelPart, c: ModelCube) -> int {
    p.offset.2 + c.origin_z
}

pub open spec fn z_end(p: ModelPart, c: ModelCube) -> int {
    z_start(p, c) + c.size_z
}

fn part(name: &'static str, offset: (i32, i32, i32), cubes: Vec<ModelCube>) -> (p: ModelPart)
    ensures
        part_view(p) == (name@, offset, cubes@),
{
    ModelPart { name, offset, cubes }
}

/// A closed shulker box, 64 by 64 texture: a 16 by 12 by 16 lid stacked on
/// a 16 by 8 by 16 base, the lid's bottom flush against the base's top.
pub fn shulker_box_parts() -> (m: ModelParts)
    ensures
        m.tex_w == 64 && m.tex_h == 64,
        m.parts@.len() == 2,
        m.parts@[0].cubes@.len() == 1 && m.parts@[1].cubes@.len() == 1,
        y_end(m.parts@[0], m.parts@[0].cubes@[0]) == y_start(m.parts@[1], m.parts@[1].cubes@[0]),
        parts_view(m.parts@) == seq![
            ("lid"@, (0i32, 24i32, 0i32), seq![spec_cube((-8, -20, -8), (16, 12, 16), (0, 0))]),
            ("base"@, (0i32, 8i32, 0i32), seq![spec_cube((-8, 8, -8), (16, 8, 16), (0, 28))]),
        ],
{
    let base = part(
        "base",
        (0, 8, 0),
        vec![cube(-8, 8, -8, 16, 8, 16, 0, 28)],
    );
    let lid = part(
        "lid",
        (0, 24, 0),
        vec![cube(-8, -20, -8, 16, 12, 16, 0, 0)],
    );
    let parts = vec![lid, base];
    let m = ModelParts { parts, tex_w: 64, tex_h: 64 };
    assert(parts_view(m.parts@) =~~= seq![
        ("lid"@, (0i32, 24i32, 0i32), seq![spec_cube((-8, -20, -8), (16, 12, 16), (0, 0))]),
        ("base"@, (0i32, 8i32, 0i32), seq![spec_cube((-8, 8, -8), (16, 8, 16), (0, 28))]),
    ]);
    m
}

/// A standing sign, 64 by 32 texture: a 24 by 12 by 2 board with a 2 by 14
/// by 2 post below its centre.
pub fn sign_parts() -> (m: ModelParts)
    ensures
        m.tex_w == 64 && m.tex_h == 32,
        parts_view(m.parts@) == seq![
            ("sign"@, (0i32, 24i32, 0i32), seq![spec_cube((-12, -14, -1), (24, 12, 2), (0, 0))]),
            ("stick"@, (0i32, 24i32, 0i32), seq![spec_cube((-1, -2, -1), (2, 14, 2), (0, 14))]),
        ],
{
    let board = part(
        "sign",
        (0, 24, 0),
        vec![cube(-12, -14, -1, 24, 12, 2, 0, 0)],
    );
    let stick = part(
        "stick",
        (0, 24, 0),
        vec![cube(-1, -2, -1, 2, 14, 2, 0, 14)],
    );
    let parts = vec![board, stick];
    let m = ModelParts { parts, tex_w: 64, tex_h: 32 };
    assert(parts_view(m.parts@) =~~= seq![
        ("sign"@, (0i32, 24i32, 0i32), seq![spec_cube((-12, -14, -1), (24, 12, 2), (0, 0))]),
        ("stick"@, (0i32, 24i32, 0i32), seq![spec_cube((-1, -2, -1), (2, 14, 2), (0, 14))]),
    ]);
    m
}

/// A closed single chest, 64 by 64 texture: a 14 by 5 by 14 lid over the
/// 14 by 10 by 14 bottom, covering its footprint, with a 2 by 4 by 1 latch on
/// the lid's front face.
pub fn chest_parts() -> (m: ModelParts)
    ensures
        m.tex_w == 64 && m.tex_h == 64,
        m.parts@.len() == 2,
        m.parts@[0].cubes@.len() == 2 && m.parts@[1].cubes@.len() == 1,
        x_start(m.parts@[0], m.parts@[0].cubes@[0]) == x_start(m.parts@[1], m.parts@[1].cubes@[0]),
        x_end(m.parts@[0], m.parts@[0].cubes@[0]) == x_end(m.parts@[1], m.parts@[1].cubes@[0]),
        z_start(m.parts@[0], m.parts@[0].cubes@[0]) == z_start(m.parts@[1], m.parts@[1].cubes@[0]),
        z_end(m.parts@[0], m.parts@[0].cubes@[0]) == z_end(m.parts@[1], m.parts@[1].cubes@[0]),
        z_start(m.parts@[0], m.parts@[0].cubes@[1]) == z_end(m.parts@[0], m.parts@[0].cubes@[0]),
        parts_view(m.parts@) == seq![
            (
                "lid"@,
                (0i32, 9i32, 1i32),
                seq![
                    spec_cube((-7, 0, -8), (14, 5, 14), (0, 0)),
                    spec_cube((-1, -2, 6), (2, 4, 1), (0, 0)),
                ],
            ),
            ("bottom"@, (0i32, 0i32, 0i32), seq![spec_cube((-7, 0, -7), (14, 10, 14), (0, 19))]),
        ],
{
    let lid = part(
        "lid",
        (0, 9, 1),
        vec![
            cube(-7, 0, -8, 14, 5, 14, 0, 0),
            cube(-1, -2, 6, 2, 4, 1, 0, 0),
        ],
    );
    let bottom = part(
        "bottom",
        (0, 0, 0),
        vec![cube(-7, 0, -7, 14, 10, 14, 0, 19)],
    );
    let parts = vec![lid, bottom];
    let m = ModelParts { parts, tex_w: 64, tex_h: 64 };
    assert(parts_view(m.parts@) =~~= seq![
        (
            "lid"@,
            (0i32, 9i32, 1i32),
            seq![
                spec_cube((-7, 0, -8), (14, 5, 14), (0, 0)),
                spec_cube((-1, -2, 6), (2, 4, 1), (0, 0)),
            ],
        ),
        ("bottom"@, (0i32, 0i32, 0i32), seq![spec_cube((-7, 0, -7), (14, 10, 14), (0, 19))]),
    ]);
    m
}

} // verus!
