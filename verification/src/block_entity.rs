//! Classification of blocks by name: those drawn by a block entity
//! renderer, those never drawn, and fluids.

use vstd::prelude::*;
use crate::text::str_eq;

verus! {

/// Chests, shulker boxes, signs, banners, beds, skulls and heads, and the other blocks vanilla draws with a block entity renderer instead of a baked model.
pub open spec fn block_entity_name(name: Seq<char>) -> bool {
    ||| name == "chest"@
    ||| name == "trapped_chest"@
    ||| name == "ender_chest"@
    ||| name == "shulker_box"@
    ||| name == "white_shulker_box"@
    ||| name == "orange_shulker_box"@
    ||| name == "magenta_shulker_box"@
    ||| name == "light_blue_shulker_box"@
    ||| name == "yellow_shulker_box"@
    ||| name == "lime_shulker_box"@
    ||| name == "pink_shulker_box"@
    ||| name == "gray_shulker_box"@
    ||| name == "light_gray_shulker_box"@
    ||| name == "cyan_shulker_box"@
    ||| name == "purple_shulker_box"@
    ||| name == "blue_shulker_box"@
    ||| name == "brown_shulker_box"@
    ||| name == "green_shulker_box"@
    ||| name == "red_shulker_box"@
    ||| name == "black_shulker_box"@
    ||| name == "oak_sign"@
    ||| name == "spruce_sign"@
    ||| name == "birch_sign"@
    ||| name == "jungle_sign"@
    ||| name == "acacia_sign"@
    ||| name == "dark_oak_sign"@
    ||| name == "mangrove_sign"@
    ||| name == "cherry_sign"@
    ||| name == "pale_oak_sign"@
    ||| name == "bamboo_sign"@
    ||| name == "crimson_sign"@
    ||| name == "warped_sign"@
    ||| name == "oak_wall_sign"@
    ||| name == "spruce_wall_sign"@
    ||| name == "birch_wall_sign"@
    ||| name == "jungle_wall_sign"@
    ||| name == "acacia_wall_sign"@
    ||| name == "dark_oak_wall_sign"@
    ||| name == "mangrove_wall_sign"@
    ||| name == "cherry_wall_sign"@
    ||| name == "pale_oak_wall_sign"@
    ||| name == "bamboo_wall_sign"@
    ||| name == "crimson_wall_sign"@
    ||| name == "warped_wall_sign"@
    ||| name == "oak_hanging_sign"@
    ||| name == "spruce_hanging_sign"@
    ||| name == "birch_hanging_sign"@
    ||| name == "jungle_hanging_sign"@
    ||| name == "acacia_hanging_sign"@
    ||| name == "dark_oak_hanging_sign"@
    ||| name == "mangrove_hanging_sign"@
    ||| name == "cherry_hanging_sign"@
    ||| name == "pale_oak_hanging_sign"@
    ||| name == "bamboo_hanging_sign"@
    ||| name == "crimson_hanging_sign"@
    ||| name == "warped_hanging_sign"@
    ||| name == "oak_wall_hanging_sign"@
    ||| name == "spruce_wall_hanging_sign"@
    ||| name == "birch_wall_hanging_sign"@
    ||| name == "jungle_wall_hanging_sign"@
    ||| name == "acacia_wall_hanging_sign"@
    ||| name == "dark_oak_wall_hanging_sign"@
    ||| name == "mangrove_wall_hanging_sign"@
    ||| name == "cherry_wall_hanging_sign"@
    ||| name == "pale_oak_wall_hanging_sign"@
    ||| name == "bamboo_wall_hanging_sign"@
    ||| name == "crimson_wall_hanging_sign"@
    ||| name == "warped_wall_hanging_sign"@
    ||| name == "white_banner"@
    ||| name == "orange_banner"@
    ||| name == "magenta_banner"@
    ||| name == "light_blue_banner"@
    ||| name == "yellow_banner"@
    ||| name == "lime_banner"@
    ||| name == "pink_banner"@
    ||| name == "gray_banner"@
    ||| name == "light_gray_banner"@
    ||| name == "cyan_banner"@
    ||| name == "purple_banner"@
    ||| name == "blue_banner"@
    ||| name == "brown_banner"@
    ||| name == "green_banner"@
    ||| name == "red_banner"@
    ||| name == "black_banner"@
    ||| name == "white_wall_banner"@
    ||| name == "orange_wall_banner"@
    ||| name == "magenta_wall_banner"@
    ||| name == "light_blue_wall_banner"@
    ||| name == "yellow_wall_banner"@
    ||| name == "lime_wall_banner"@
    ||| name == "pink_wall_banner"@
    ||| name == "gray_wall_banner"@
    ||| name == "light_gray_wall_banner"@
    ||| name == "cyan_wall_banner"@
    ||| name == "purple_wall_banner"@
    ||| name == "blue_wall_banner"@
    ||| name == "brown_wall_banner"@
    ||| name == "green_wall_banner"@
    ||| name == "red_wall_banner"@
    ||| name == "black_wall_banner"@
    ||| name == "white_bed"@
    ||| name == "orange_bed"@
    ||| name == "magenta_bed"@
    ||| name == "light_blue_bed"@
    ||| name == "yellow_bed"@
    ||| name == "lime_bed"@
    ||| name == "pink_bed"@
    ||| name == "gray_bed"@
    ||| name == "light_gray_bed"@
    ||| name == "cyan_bed"@
    ||| name == "purple_bed"@
    ||| name == "blue_bed"@
    ||| name == "brown_bed"@
    ||| name == "green_bed"@
    ||| name == "red_bed"@
    ||| name == "black_bed"@
    ||| name == "skeleton_skull"@
    ||| name == "skeleton_wall_skull"@
    ||| name == "wither_skeleton_skull"@
    ||| name == "wither_skeleton_wall_skull"@
    ||| name == "zombie_head"@
    ||| name == "zombie_wall_head"@
    ||| name == "player_head"@
    ||| name == "player_wall_head"@
    ||| name == "creeper_head"@
    ||| name == "creeper_wall_head"@
    ||| name == "dragon_head"@
    ||| name == "dragon_wall_head"@
    ||| name == "piglin_head"@
    ||| name == "piglin_wall_head"@
    ||| name == "conduit"@
    ||| name == "decorated_pot"@
    ||| name == "end_portal"@
    ||| name == "end_gateway"@
    ||| name == "beacon"@
    ||| name == "spawner"@
    ||| name == "trial_spawner"@
    ||| name == "vault"@
    ||| name == "brewing_stand"@
    ||| name == "lectern"@
    ||| name == "campfire"@
    ||| name == "soul_campfire"@
    ||| name == "beehive"@
    ||| name == "bee_nest"@
    ||| name == "bell"@
    ||| name == "suspicious_sand"@
    ||| name == "suspicious_gravel"@
    ||| name == "crafter"@
}

/// Whether the block is drawn by a block entity renderer; the chunk mesher skips it.
pub fn is_block_entity_block(name: &str) -> (r: bool)
    ensures
        r == block_entity_name(name@),
{
    str_eq(name, "chest")
        || str_eq(name, "trapped_chest")
        || str_eq(name, "ender_chest")
        || str_eq(name, "shulker_box")
        || str_eq(name, "white_shulker_box")
        || str_eq(name, "orange_shulker_box")
        || str_eq(name, "magenta_shulker_box")
        || str_eq(name, "light_blue_shulker_box")
        || str_eq(name, "yellow_shulker_box")
        || str_eq(name, "lime_shulker_box")
        || str_eq(name, "pink_shulker_box")
        || str_eq(name, "gray_shulker_box")
        || str_eq(name, "light_gray_shulker_box")
        || str_eq(name, "cyan_shulker_box")
        || str_eq(name, "purple_shulker_box")
        || str_eq(name, "blue_shulker_box")
        || str_eq(name, "brown_shulker_box")
        || str_eq(name, "green_shulker_box")
        || str_eq(name, "red_shulker_box")
        || str_eq(name, "black_shulker_box")
        || str_eq(name, "oak_sign")
        || str_eq(name, "spruce_sign")
        || str_eq(name, "birch_sign")
        || str_eq(name, "jungle_sign")
        || str_eq(name, "acacia_sign")
        || str_eq(name, "dark_oak_sign")
        || str_eq(name, "mangrove_sign")
        || str_eq(name, "cherry_sign")
        || str_eq(name, "pale_oak_sign")
        || str_eq(name, "bamboo_sign")
        || str_eq(name, "crimson_sign")
        || str_eq(name, "warped_sign")
        || str_eq(name, "oak_wall_sign")
        || str_eq(name, "spruce_wall_sign")
        || str_eq(name, "birch_wall_sign")
        || str_eq(name, "jungle_wall_sign")
        || str_eq(name, "acacia_wall_sign")
        || str_eq(name, "dark_oak_wall_sign")
        || str_eq(name, "mangrove_wall_sign")
        || str_eq(name, "cherry_wall_sign")
        || str_eq(name, "pale_oak_wall_sign")
        || str_eq(name, "bamboo_wall_sign")
        || str_eq(name, "crimson_wall_sign")
        || str_eq(name, "warped_wall_sign")
        || str_eq(name, "oak_hanging_sign")
        || str_eq(name, "spruce_hanging_sign")
        || str_eq(name, "birch_hanging_sign")
        || str_eq(name, "jungle_hanging_sign")
        || str_eq(name, "acacia_hanging_sign")
        || str_eq(name, "dark_oak_hanging_sign")
        || str_eq(name, "mangrove_hanging_sign")
        || str_eq(name, "cherry_hanging_sign")
        || str_eq(name, "pale_oak_hanging_sign")
        || str_eq(name, "bamboo_hanging_sign")
        || str_eq(name, "crimson_hanging_sign")
        || str_eq(name, "warped_hanging_sign")
        || str_eq(name, "oak_wall_hanging_sign")
        || str_eq(name, "spruce_wall_hanging_sign")
        || str_eq(name, "birch_wall_hanging_sign")
        || str_eq(name, "jungle_wall_hanging_sign")
        || str_eq(name, "acacia_wall_hanging_sign")
        || str_eq(name, "dark_oak_wall_hanging_sign")
        || str_eq(name, "mangrove_wall_hanging_sign")
        || str_eq(name, "cherry_wall_hanging_sign")
        || str_eq(name, "pale_oak_wall_hanging_sign")
        || str_eq(name, "bamboo_wall_hanging_sign")
        || str_eq(name, "crimson_wall_hanging_sign")
        || str_eq(name, "warped_wall_hanging_sign")
        || str_eq(name, "white_banner")
        || str_eq(name, "orange_banner")
        || str_eq(name, "magenta_banner")
        || str_eq(name, "light_blue_banner")
        || str_eq(name, "yellow_banner")
        || str_eq(name, "lime_banner")
        || str_eq(name, "pink_banner")
        || str_eq(name, "gray_banner")
        || str_eq(name, "light_gray_banner")
        || str_eq(name, "cyan_banner")
        || str_eq(name, "purple_banner")
        || str_eq(name, "blue_banner")
        || str_eq(name, "brown_banner")
        || str_eq(name, "green_banner")
        || str_eq(name, "red_banner")
        || str_eq(name, "black_banner")
        || str_eq(name, "white_wall_banner")
        || str_eq(name, "orange_wall_banner")
        || str_eq(name, "magenta_wall_banner")
        || str_eq(name, "light_blue_wall_banner")
        || str_eq(name, "yellow_wall_banner")
        || str_eq(name, "lime_wall_banner")
        || str_eq(name, "pink_wall_banner")
        || str_eq(name, "gray_wall_banner")
        || str_eq(name, "light_gray_wall_banner")
        || str_eq(name, "cyan_wall_banner")
        || str_eq(name, "purple_wall_banner")
        || str_eq(name, "blue_wall_banner")
        || str_eq(name, "brown_wall_banner")
        || str_eq(name, "green_wall_banner")
        || str_eq(name, "red_wall_banner")
        || str_eq(name, "black_wall_banner")
        || str_eq(name, "white_bed")
        || str_eq(name, "orange_bed")
        || str_eq(name, "magenta_bed")
        || str_eq(name, "light_blue_bed")
        || str_eq(name, "yellow_bed")
        || str_eq(name, "lime_bed")
        || str_eq(name, "pink_bed")
        || str_eq(name, "gray_bed")
        || str_eq(name, "light_gray_bed")
        || str_eq(name, "cyan_bed")
        || str_eq(name, "purple_bed")
        || str_eq(name, "blue_bed")
        || str_eq(name, "brown_bed")
        || str_eq(name, "green_bed")
        || str_eq(name, "red_bed")
        || str_eq(name, "black_bed")
        || str_eq(name, "skeleton_skull")
        || str_eq(name, "skeleton_wall_skull")
        || str_eq(name, "wither_skeleton_skull")
        || str_eq(name, "wither_skeleton_wall_skull")
        || str_eq(name, "zombie_head")
        || str_eq(name, "zombie_wall_head")
        || str_eq(name, "player_head")
        || str_eq(name, "player_wall_head")
        || str_eq(name, "creeper_head")
        || str_eq(name, "creeper_wall_head")
        || str_eq(name, "dragon_head")
        || str_eq(name, "dragon_wall_head")
        || str_eq(name, "piglin_head")
        || str_eq(name, "piglin_wall_head")
        || str_eq(name, "conduit")
        || str_eq(name, "decorated_pot")
        || str_eq(name, "end_portal")
        || str_eq(name, "end_gateway")
        || str_eq(name, "beacon")
        || str_eq(name, "spawner")
        || str_eq(name, "trial_spawner")
        || str_eq(name, "vault")
        || str_eq(name, "brewing_stand")
        || str_eq(name, "lectern")
        || str_eq(name, "campfire")
        || str_eq(name, "soul_campfire")
        || str_eq(name, "beehive")
        || str_eq(name, "bee_nest")
        || str_eq(name, "bell")
        || str_eq(name, "suspicious_sand")
        || str_eq(name, "suspicious_gravel")
        || str_eq(name, "crafter")
}

/// Blocks that are never drawn.
pub open spec fn invisible_name(name: Seq<char>) -> bool {
    ||| name == "air"@
    ||| name == "cave_air"@
    ||| name == "void_air"@
    ||| name == "barrier"@
    ||| name == "light"@
    ||| name == "structure_void"@
    ||| name == "moving_piston"@
    ||| name == "heavy_core"@
}

/// Whether the block is never drawn.
pub fn is_invisible_block(name: &str) -> (r: bool)
    ensures
        r == invisible_name(name@),
{
    str_eq(name, "air")
        || str_eq(name, "cave_air")
        || str_eq(name, "void_air")
        || str_eq(name, "barrier")
        || str_eq(name, "light")
        || str_eq(name, "structure_void")
        || str_eq(name, "moving_piston")
        || str_eq(name, "heavy_core")
}

/// Blocks drawn as fluids.
pub open spec fn fluid_name(name: Seq<char>) -> bool {
    ||| name == "water"@
    ||| name == "lava"@
    ||| name == "bubble_column"@
}

/// Whether the block is drawn as a fluid.
pub fn is_fluid_block(name: &str) -> (r: bool)
    ensures
        r == fluid_name(name@),
{
    str_eq(name, "water")
        || str_eq(name, "lava")
        || str_eq(name, "bubble_column")
}

/// The sixteen dye colours, by number.
pub open spec fn dye_colour(k: int) -> Seq<char> {
    if k == 0 {
        "white"@
    } else if k == 1 {
        "orange"@
    } else if k == 2 {
        "magenta"@
    } else if k == 3 {
        "light_blue"@
    } else if k == 4 {
        "yellow"@
    } else if k == 5 {
        "lime"@
    } else if k == 6 {
        "pink"@
    } else if k == 7 {
        "gray"@
    } else if k == 8 {
        "light_gray"@
    } else if k == 9 {
        "cyan"@
    } else if k == 10 {
        "purple"@
    } else if k == 11 {
        "blue"@
    } else if k == 12 {
        "brown"@
    } else if k == 13 {
        "green"@
    } else if k == 14 {
        "red"@
    } else {
        "black"@
    }
}

/// The twelve kinds of wood that signs are made of, by number.
pub open spec fn wood_kind(k: int) -> Seq<char> {
    if k == 0 {
        "oak"@
    } else if k == 1 {
        "spruce"@
    } else if k == 2 {
        "birch"@
    } else if k == 3 {
        "jungle"@
    } else if k == 4 {
        "acacia"@
    } else if k == 5 {
        "dark_oak"@
    } else if k == 6 {
        "mangrove"@
    } else if k == 7 {
        "cherry"@
    } else if k == 8 {
        "pale_oak"@
    } else if k == 9 {
        "bamboo"@
    } else if k == 10 {
        "crimson"@
    } else {
        "warped"@
    }
}

/// Law: the bed, the shulker box, the banner and the wall banner of every
/// dye colour are drawn by the block entity renderer.
pub proof fn lemma_dyed_block_entities(k: int)
    requires
        0 <= k < 16,
    ensures
        block_entity_name(dye_colour(k) + "_bed"@),
        block_entity_name(dye_colour(k) + "_shulker_box"@),
        block_entity_name(dye_colour(k) + "_banner"@),
        block_entity_name(dye_colour(k) + "_wall_banner"@),
{
    reveal_strlit("_bed");
    reveal_strlit("_shulker_box");
    reveal_strlit("_banner");
    reveal_strlit("_wall_banner");
    if k == 0 {
        reveal_strlit("white");
        reveal_strlit("white_bed");
        assert(dye_colour(k) + "_bed"@ =~= "white_bed"@);
        reveal_strlit("white_shulker_box");
        assert(dye_colour(k) + "_shulker_box"@ =~= "white_shulker_box"@);
        reveal_strlit("white_banner");
        assert(dye_colour(k) + "_banner"@ =~= "white_banner"@);
        reveal_strlit("white_wall_banner");
        assert(dye_colour(k) + "_wall_banner"@ =~= "white_wall_banner"@);
    } else if k == 1 {
        reveal_strlit("orange");
        reveal_strlit("orange_bed");
        assert(dye_colour(k) + "_bed"@ =~= "orange_bed"@);
        reveal_strlit("orange_shulker_box");
        assert(dye_colour(k) + "_shulker_box"@ =~= "orange_shulker_box"@);
        reveal_strlit("orange_banner");
        assert(dye_colour(k) + "_banner"@ =~= "orange_banner"@);
        reveal_strlit("orange_wall_banner");
        assert(dye_colour(k) + "_wall_banner"@ =~= "orange_wall_banner"@);
    } else if k == 2 {
        reveal_strlit("magenta");
        reveal_strlit("magenta_bed");
        assert(dye_colour(k) + "_bed"@ =~= "magenta_bed"@);
        reveal_strlit("magenta_shulker_box");
        assert(dye_colour(k) + "_shulker_box"@ =~= "magenta_shulker_box"@);
        reveal_strlit("magenta_banner");
        assert(dye_colour(k) + "_banner"@ =~= "magenta_banner"@);
        reveal_strlit("magenta_wall_banner");
        assert(dye_colour(k) + "_wall_banner"@ =~= "magenta_wall_banner"@);
    } else if k == 3 {
        reveal_strlit("light_blue");
        reveal_strlit("light_blue_bed");
        assert(dye_colour(k) + "_bed"@ =~= "light_blue_bed"@);
        reveal_strlit("light_blue_shulker_box");
        assert(dye_colour(k) + "_shulker_box"@ =~= "light_blue_shulker_box"@);
        reveal_strlit("light_blue_banner");
        assert(dye_colour(k) + "_banner"@ =~= "light_blue_banner"@);
        reveal_strlit("light_blue_wall_banner");
        assert(dye_colour(k) + "_wall_banner"@ =~= "light_blue_wall_banner"@);
    } else if k == 4 {
        reveal_strlit("yellow");
        reveal_strlit("yellow_bed");
        assert(dye_colour(k) + "_bed"@ =~= "yellow_bed"@);
        reveal_strlit("yellow_shulker_box");
        assert(dye_colour(k) + "_shulker_box"@ =~= "yellow_shulker_box"@);
        reveal_strlit("yellow_banner");
        assert(dye_colour(k) + "_banner"@ =~= "yellow_banner"@);
        reveal_strlit("yellow_wall_banner");
        assert(dye_colour(k) + "_wall_banner"@ =~= "yellow_wall_banner"@);
    } else if k == 5 {
        reveal_strlit("lime");
        reveal_strlit("lime_bed");
        assert(dye_colour(k) + "_bed"@ =~= "lime_bed"@);
        reveal_strlit("lime_shulker_box");
        assert(dye_colour(k) + "_shulker_box"@ =~= "lime_shulker_box"@);
        reveal_strlit("lime_banner");
        assert(dye_colour(k) + "_banner"@ =~= "lime_banner"@);
        reveal_strlit("lime_wall_banner");
        assert(dye_colour(k) + "_wall_banner"@ =~= "lime_wall_banner"@);
    } else if k == 6 {
        reveal_strlit("pink");
        reveal_strlit("pink_bed");
        assert(dye_colour(k) + "_bed"@ =~= "pink_bed"@);
        reveal_strlit("pink_shulker_box");
        assert(dye_colour(k) + "_shulker_box"@ =~= "pink_shulker_box"@);
        reveal_strlit("pink_banner");
        assert(dye_colour(k) + "_banner"@ =~= "pink_banner"@);
        reveal_strlit("pink_wall_banner");
        assert(dye_colour(k) + "_wall_banner"@ =~= "pink_wall_banner"@);
    } else if k == 7 {
        reveal_strlit("gray");
        reveal_strlit("gray_bed");
        assert(dye_colour(k) + "_bed"@ =~= "gray_bed"@);
        reveal_strlit("gray_shulker_box");
        assert(dye_colour(k) + "_shulker_box"@ =~= "gray_shulker_box"@);
        reveal_strlit("gray_banner");
        assert(dye_colour(k) + "_banner"@ =~= "gray_banner"@);
        reveal_strlit("gray_wall_banner");
        assert(dye_colour(k) + "_wall_banner"@ =~= "gray_wall_banner"@);
    } else if k == 8 {
        reveal_strlit("light_gray");
        reveal_strlit("light_gray_bed");
        assert(dye_colour(k) + "_bed"@ =~= "light_gray_bed"@);
        reveal_strlit("light_gray_shulker_box");
        assert(dye_colour(k) + "_shulker_box"@ =~= "light_gray_shulker_box"@);
        reveal_strlit("light_gray_banner");
        assert(dye_colour(k) + "_banner"@ =~= "light_gray_banner"@);
        reveal_strlit("light_gray_wall_banner");
        assert(dye_colour(k) + "_wall_banner"@ =~= "light_gray_wall_banner"@);
    } else if k == 9 {
        reveal_strlit("cyan");
        reveal_strlit("cyan_bed");
        assert(dye_colour(k) + "_bed"@ =~= "cyan_bed"@);
        reveal_strlit("cyan_shulker_box");
        assert(dye_colour(k) + "_shulker_box"@ =~= "cyan_shulker_box"@);
        reveal_strlit("cyan_banner");
        assert(dye_colour(k) + "_banner"@ =~= "cyan_banner"@);
        reveal_strlit("cyan_wall_banner");
        assert(dye_colour(k) + "_wall_banner"@ =~= "cyan_wall_banner"@);
    } else if k == 10 {
        reveal_strlit("purple");
        reveal_strlit("purple_bed");
        assert(dye_colour(k) + "_bed"@ =~= "purple_bed"@);
        reveal_strlit("purple_shulker_box");
        assert(dye_colour(k) + "_shulker_box"@ =~= "purple_shulker_box"@);
        reveal_strlit("purple_banner");
        assert(dye_colour(k) + "_banner"@ =~= "purple_banner"@);
        reveal_strlit("purple_wall_banner");
        assert(dye_colour(k) + "_wall_banner"@ =~= "purple_wall_banner"@);
    } else if k == 11 {
        reveal_strlit("blue");
        reveal_strlit("blue_bed");
        assert(dye_colour(k) + "_bed"@ =~= "blue_bed"@);
        reveal_strlit("blue_shulker_box");
        assert(dye_colour(k) + "_shulker_box"@ =~= "blue_shulker_box"@);
        reveal_strlit("blue_banner");
        assert(dye_colour(k) + "_banner"@ =~= "blue_banner"@);
        reveal_strlit("blue_wall_banner");
        assert(dye_colour(k) + "_wall_banner"@ =~= "blue_wall_banner"@);
    } else if k == 12 {
        reveal_strlit("brown");
        reveal_strlit("brown_bed");
        assert(dye_colour(k) + "_bed"@ =~= "brown_bed"@);
        reveal_strlit("brown_shulker_box");
        assert(dye_colour(k) + "_shulker_box"@ =~= "brown_shulker_box"@);
        reveal_strlit("brown_banner");
        assert(dye_colour(k) + "_banner"@ =~= "brown_banner"@);
        reveal_strlit("brown_wall_banner");
        assert(dye_colour(k) + "_wall_banner"@ =~= "brown_wall_banner"@);
    } else if k == 13 {
        reveal_strlit("green");
        reveal_strlit("green_bed");
        assert(dye_colour(k) + "_bed"@ =~= "green_bed"@);
        reveal_strlit("green_shulker_box");
        assert(dye_colour(k) + "_shulker_box"@ =~= "green_shulker_box"@);
        reveal_strlit("green_banner");
        assert(dye_colour(k) + "_banner"@ =~= "green_banner"@);
        reveal_strlit("green_wall_banner");
        assert(dye_colour(k) + "_wall_banner"@ =~= "green_wall_banner"@);
    } else if k == 14 {
        reveal_strlit("red");
        reveal_strlit("red_bed");
        assert(dye_colour(k) + "_bed"@ =~= "red_bed"@);
        reveal_strlit("red_shulker_box");
        assert(dye_colour(k) + "_shulker_box"@ =~= "red_shulker_box"@);
        reveal_strlit("red_banner");
        assert(dye_colour(k) + "_banner"@ =~= "red_banner"@);
        reveal_strlit("red_wall_banner");
        assert(dye_colour(k) + "_wall_banner"@ =~= "red_wall_banner"@);
    } else if k == 15 {
        reveal_strlit("black");
        reveal_strlit("black_bed");
        assert(dye_colour(k) + "_bed"@ =~= "black_bed"@);
        reveal_strlit("black_shulker_box");
        assert(dye_colour(k) + "_shulker_box"@ =~= "black_shulker_box"@);
        reveal_strlit("black_banner");
        assert(dye_colour(k) + "_banner"@ =~= "black_banner"@);
        reveal_strlit("black_wall_banner");
        assert(dye_colour(k) + "_wall_banner"@ =~= "black_wall_banner"@);
    }
}

/// Law: the sign, wall sign, hanging sign and wall hanging sign of every
/// kind of wood are drawn by the block entity renderer.
pub proof fn lemma_wooden_sign_block_entities(k: int)
    requires
        0 <= k < 12,
    ensures
        block_entity_name(wood_kind(k) + "_sign"@),
        block_entity_name(wood_kind(k) + "_wall_sign"@),
        block_entity_name(wood_kind(k) + "_hanging_sign"@),
        block_entity_name(wood_kind(k) + "_wall_hanging_sign"@),
{
    reveal_strlit("_sign");
    reveal_strlit("_wall_sign");
    reveal_strlit("_hanging_sign");
    reveal_strlit("_wall_hanging_sign");
    if k == 0 {
        reveal_strlit("oak");
        reveal_strlit("oak_sign");
        assert(wood_kind(k) + "_sign"@ =~= "oak_sign"@);
        reveal_strlit("oak_wall_sign");
        assert(wood_kind(k) + "_wall_sign"@ =~= "oak_wall_sign"@);
        reveal_strlit("oak_hanging_sign");
        assert(wood_kind(k) + "_hanging_sign"@ =~= "oak_hanging_sign"@);
        reveal_strlit("oak_wall_hanging_sign");
        assert(wood_kind(k) + "_wall_hanging_sign"@ =~= "oak_wall_hanging_sign"@);
    } else if k == 1 {
        reveal_strlit("spruce");
        reveal_strlit("spruce_sign");
        assert(wood_kind(k) + "_sign"@ =~= "spruce_sign"@);
        reveal_strlit("spruce_wall_sign");
        assert(wood_kind(k) + "_wall_sign"@ =~= "spruce_wall_sign"@);
        reveal_strlit("spruce_hanging_sign");
        assert(wood_kind(k) + "_hanging_sign"@ =~= "spruce_hanging_sign"@);
        reveal_strlit("spruce_wall_hanging_sign");
        assert(wood_kind(k) + "_wall_hanging_sign"@ =~= "spruce_wall_hanging_sign"@);
    } else if k == 2 {
        reveal_strlit("birch");
        reveal_strlit("birch_sign");
        assert(wood_kind(k) + "_sign"@ =~= "birch_sign"@);
        reveal_strlit("birch_wall_sign");
        assert(wood_kind(k) + "_wall_sign"@ =~= "birch_wall_sign"@);
        reveal_strlit("birch_hanging_sign");
        assert(wood_kind(k) + "_hanging_sign"@ =~= "birch_hanging_sign"@);
        reveal_strlit("birch_wall_hanging_sign");
        assert(wood_kind(k) + "_wall_hanging_sign"@ =~= "birch_wall_hanging_sign"@);
    } else if k == 3 {
        reveal_strlit("jungle");
        reveal_strlit("jungle_sign");
        assert(wood_kind(k) + "_sign"@ =~= "jungle_sign"@);
        reveal_strlit("jungle_wall_sign");
        assert(wood_kind(k) + "_wall_sign"@ =~= "jungle_wall_sign"@);
        reveal_strlit("jungle_hanging_sign");
        assert(wood_kind(k) + "_hanging_sign"@ =~= "jungle_hanging_sign"@);
        reveal_strlit("jungle_wall_hanging_sign");
        assert(wood_kind(k) + "_wall_hanging_sign"@ =~= "jungle_wall_hanging_sign"@);
    } else if k == 4 {
        reveal_strlit("acacia");
        reveal_strlit("acacia_sign");
        assert(wood_kind(k) + "_sign"@ =~= "acacia_sign"@);
        reveal_strlit("acacia_wall_sign");
        assert(wood_kind(k) + "_wall_sign"@ =~= "acacia_wall_sign"@);
        reveal_strlit("acacia_hanging_sign");
        assert(wood_kind(k) + "_hanging_sign"@ =~= "acacia_hanging_sign"@);
        reveal_strlit("acacia_wall_hanging_sign");
        assert(wood_kind(k) + "_wall_hanging_sign"@ =~= "acacia_wall_hanging_sign"@);
    } else if k == 5 {
        reveal_strlit("dark_oak");
        reveal_strlit("dark_oak_sign");
        assert(wood_kind(k) + "_sign"@ =~= "dark_oak_sign"@);
        reveal_strlit("dark_oak_wall_sign");
        assert(wood_kind(k) + "_wall_sign"@ =~= "dark_oak_wall_sign"@);
        reveal_strlit("dark_oak_hanging_sign");
        assert(wood_kind(k) + "_hanging_sign"@ =~= "dark_oak_hanging_sign"@);
        reveal_strlit("dark_oak_wall_hanging_sign");
        assert(wood_kind(k) + "_wall_hanging_sign"@ =~= "dark_oak_wall_hanging_sign"@);
    } else if k == 6 {
        reveal_strlit("mangrove");
        reveal_strlit("mangrove_sign");
        assert(wood_kind(k) + "_sign"@ =~= "mangrove_sign"@);
        reveal_strlit("mangrove_wall_sign");
        assert(wood_kind(k) + "_wall_sign"@ =~= "mangrove_wall_sign"@);
        reveal_strlit("mangrove_hanging_sign");
        assert(wood_kind(k) + "_hanging_sign"@ =~= "mangrove_hanging_sign"@);
        reveal_strlit("mangrove_wall_hanging_sign");
        assert(wood_kind(k) + "_wall_hanging_sign"@ =~= "mangrove_wall_hanging_sign"@);
    } else if k == 7 {
        reveal_strlit("cherry");
        reveal_strlit("cherry_sign");
        assert(wood_kind(k) + "_sign"@ =~= "cherry_sign"@);
        reveal_strlit("cherry_wall_sign");
        assert(wood_kind(k) + "_wall_sign"@ =~= "cherry_wall_sign"@);
        reveal_strlit("cherry_hanging_sign");
        assert(wood_kind(k) + "_hanging_sign"@ =~= "cherry_hanging_sign"@);
        reveal_strlit("cherry_wall_hanging_sign");
        assert(wood_kind(k) + "_wall_hanging_sign"@ =~= "cherry_wall_hanging_sign"@);
    } else if k == 8 {
        reveal_strlit("pale_oak");
        reveal_strlit("pale_oak_sign");
        assert(wood_kind(k) + "_sign"@ =~= "pale_oak_sign"@);
        reveal_strlit("pale_oak_wall_sign");
        assert(wood_kind(k) + "_wall_sign"@ =~= "pale_oak_wall_sign"@);
        reveal_strlit("pale_oak_hanging_sign");
        assert(wood_kind(k) + "_hanging_sign"@ =~= "pale_oak_hanging_sign"@);
        reveal_strlit("pale_oak_wall_hanging_sign");
        assert(wood_kind(k) + "_wall_hanging_sign"@ =~= "pale_oak_wall_hanging_sign"@);
    } else if k == 9 {
        reveal_strlit("bamboo");
        reveal_strlit("bamboo_sign");
        assert(wood_kind(k) + "_sign"@ =~= "bamboo_sign"@);
        reveal_strlit("bamboo_wall_sign");
        assert(wood_kind(k) + "_wall_sign"@ =~= "bamboo_wall_sign"@);
        reveal_strlit("bamboo_hanging_sign");
        assert(wood_kind(k) + "_hanging_sign"@ =~= "bamboo_hanging_sign"@);
        reveal_strlit("bamboo_wall_hanging_sign");
        assert(wood_kind(k) + "_wall_hanging_sign"@ =~= "bamboo_wall_hanging_sign"@);
    } else if k == 10 {
        reveal_strlit("crimson");
        reveal_strlit("crimson_sign");
        assert(wood_kind(k) + "_sign"@ =~= "crimson_sign"@);
        reveal_strlit("crimson_wall_sign");
        assert(wood_kind(k) + "_wall_sign"@ =~= "crimson_wall_sign"@);
        reveal_strlit("crimson_hanging_sign");
        assert(wood_kind(k) + "_hanging_sign"@ =~= "crimson_hanging_sign"@);
        reveal_strlit("crimson_wall_hanging_sign");
        assert(wood_kind(k) + "_wall_hanging_sign"@ =~= "crimson_wall_hanging_sign"@);
    } else if k == 11 {
        reveal_strlit("warped");
        reveal_strlit("warped_sign");
        assert(wood_kind(k) + "_sign"@ =~= "warped_sign"@);
        reveal_strlit("warped_wall_sign");
        assert(wood_kind(k) + "_wall_sign"@ =~= "warped_wall_sign"@);
        reveal_strlit("warped_hanging_sign");
        assert(wood_kind(k) + "_hanging_sign"@ =~= "warped_hanging_sign"@);
        reveal_strlit("warped_wall_hanging_sign");
        assert(wood_kind(k) + "_wall_hanging_sign"@ =~= "warped_wall_hanging_sign"@);
    }
}

/// The block entity blocks that come in no dye colour and no wood: the
/// chests, the plain shulker box, the skulls and heads, and the rest.
pub open spec fn other_block_entity(k: int) -> Seq<char> {
    if k == 0 {
        "chest"@
    } else if k == 1 {
        "trapped_chest"@
    } else if k == 2 {
        "ender_chest"@
    } else if k == 3 {
        "shulker_box"@
    } else if k == 4 {
        "skeleton_skull"@
    } else if k == 5 {
        "skeleton_wall_skull"@
    } else if k == 6 {
        "wither_skeleton_skull"@
    } else if k == 7 {
        "wither_skeleton_wall_skull"@
    } else if k == 8 {
        "zombie_head"@
    } else if k == 9 {
        "zombie_wall_head"@
    } else if k == 10 {
        "player_head"@
    } else if k == 11 {
        "player_wall_head"@
    } else if k == 12 {
        "creeper_head"@
    } else if k == 13 {
        "creeper_wall_head"@
    } else if k == 14 {
        "dragon_head"@
    } else if k == 15 {
        "dragon_wall_head"@
    } else if k == 16 {
        "piglin_head"@
    } else if k == 17 {
        "piglin_wall_head"@
    } else if k == 18 {
        "conduit"@
    } else if k == 19 {
        "decorated_pot"@
    } else if k == 20 {
        "end_portal"@
    } else if k == 21 {
        "end_gateway"@
    } else if k == 22 {
        "beacon"@
    } else if k == 23 {
        "spawner"@
    } else if k == 24 {
        "trial_spawner"@
    } else if k == 25 {
        "vault"@
    } else if k == 26 {
        "brewing_stand"@
    } else if k == 27 {
        "lectern"@
    } else if k == 28 {
        "campfire"@
    } else if k == 29 {
        "soul_campfire"@
    } else if k == 30 {
        "beehive"@
    } else if k == 31 {
        "bee_nest"@
    } else if k == 32 {
        "bell"@
    } else if k == 33 {
        "suspicious_sand"@
    } else if k == 34 {
        "suspicious_gravel"@
    } else {
        "crafter"@
    }
}

/// Law: the chests, the plain shulker box, the skulls and heads (floor and
/// wall), and the other blocks listed in `other_block_entity` are drawn by
/// the block entity renderer.
pub proof fn lemma_other_block_entities(k: int)
    requires
        0 <= k < 36,
    ensures
        block_entity_name(other_block_entity(k)),
{
    if k == 0 {
        reveal_strlit("chest");
    } else if k == 1 {
        reveal_strlit("trapped_chest");
    } else if k == 2 {
        reveal_strlit("ender_chest");
    } else if k == 3 {
        reveal_strlit("shulker_box");
    } else if k == 4 {
        reveal_strlit("skeleton_skull");
    } else if k == 5 {
        reveal_strlit("skeleton_wall_skull");
    } else if k == 6 {
        reveal_strlit("wither_skeleton_skull");
    } else if k == 7 {
        reveal_strlit("wither_skeleton_wall_skull");
    } else if k == 8 {
        reveal_strlit("zombie_head");
    } else if k == 9 {
        reveal_strlit("zombie_wall_head");
    } else if k == 10 {
        reveal_strlit("player_head");
    } else if k == 11 {
        reveal_strlit("player_wall_head");
    } else if k == 12 {
        reveal_strlit("creeper_head");
    } else if k == 13 {
        reveal_strlit("creeper_wall_head");
    } else if k == 14 {
        reveal_strlit("dragon_head");
    } else if k == 15 {
        reveal_strlit("dragon_wall_head");
    } else if k == 16 {
        reveal_strlit("piglin_head");
    } else if k == 17 {
        reveal_strlit("piglin_wall_head");
    } else if k == 18 {
        reveal_strlit("conduit");
    } else if k == 19 {
        reveal_strlit("decorated_pot");
    } else if k == 20 {
        reveal_strlit("end_portal");
    } else if k == 21 {
        reveal_strlit("end_gateway");
    } else if k == 22 {
        reveal_strlit("beacon");
    } else if k == 23 {
        reveal_strlit("spawner");
    } else if k == 24 {
        reveal_strlit("trial_spawner");
    } else if k == 25 {
        reveal_strlit("vault");
    } else if k == 26 {
        reveal_strlit("brewing_stand");
    } else if k == 27 {
        reveal_strlit("lectern");
    } else if k == 28 {
        reveal_strlit("campfire");
    } else if k == 29 {
        reveal_strlit("soul_campfire");
    } else if k == 30 {
        reveal_strlit("beehive");
    } else if k == 31 {
        reveal_strlit("bee_nest");
    } else if k == 32 {
        reveal_strlit("bell");
    } else if k == 33 {
        reveal_strlit("suspicious_sand");
    } else if k == 34 {
        reveal_strlit("suspicious_gravel");
    } else if k == 35 {
        reveal_strlit("crafter");
    }
}

/// Law: the classes the chunk mesher branches on are disjoint: no block is
/// more than one of a block entity, invisible, or a fluid.
pub proof fn lemma_block_classes_disjoint(name: Seq<char>)
    ensures
        !(block_entity_name(name) && invisible_name(name)),
        !(block_entity_name(name) && fluid_name(name)),
        !(invisible_name(name) && fluid_name(name)),
{
    // Each name of the other classes differs from every block entity name in
    // its length, or in the character the assertions below point at.
    reveal_strlit("air");
    reveal_strlit("cave_air");
    reveal_strlit("void_air");
    reveal_strlit("barrier");
    reveal_strlit("light");
    reveal_strlit("structure_void");
    reveal_strlit("moving_piston");
    reveal_strlit("heavy_core");
    reveal_strlit("water");
    reveal_strlit("lava");
    reveal_strlit("bubble_column");
    reveal_strlit("chest");
    reveal_strlit("trapped_chest");
    reveal_strlit("ender_chest");
    reveal_strlit("shulker_box");
    reveal_strlit("white_shulker_box");
    reveal_strlit("orange_shulker_box");
    reveal_strlit("magenta_shulker_box");
    reveal_strlit("light_blue_shulker_box");
    reveal_strlit("yellow_shulker_box");
    reveal_strlit("lime_shulker_box");
    reveal_strlit("pink_shulker_box");
    reveal_strlit("gray_shulker_box");
    reveal_strlit("light_gray_shulker_box");
    reveal_strlit("cyan_shulker_box");
    reveal_strlit("purple_shulker_box");
    reveal_strlit("blue_shulker_box");
    reveal_strlit("brown_shulker_box");
    reveal_strlit("green_shulker_box");
    reveal_strlit("red_shulker_box");
    reveal_strlit("black_shulker_box");
    reveal_strlit("oak_sign");
    reveal_strlit("spruce_sign");
    reveal_strlit("birch_sign");
    reveal_strlit("jungle_sign");
    reveal_strlit("acacia_sign");
    reveal_strlit("dark_oak_sign");
    reveal_strlit("mangrove_sign");
    reveal_strlit("cherry_sign");
    reveal_strlit("pale_oak_sign");
    reveal_strlit("bamboo_sign");
    reveal_strlit("crimson_sign");
    reveal_strlit("warped_sign");
    reveal_strlit("oak_wall_sign");
    reveal_strlit("spruce_wall_sign");
    reveal_strlit("birch_wall_sign");
    reveal_strlit("jungle_wall_sign");
    reveal_strlit("acacia_wall_sign");
    reveal_strlit("dark_oak_wall_sign");
    reveal_strlit("mangrove_wall_sign");
    reveal_strlit("cherry_wall_sign");
    reveal_strlit("pale_oak_wall_sign");
    reveal_strlit("bamboo_wall_sign");
    reveal_strlit("crimson_wall_sign");
    reveal_strlit("warped_wall_sign");
    reveal_strlit("oak_hanging_sign");
    reveal_strlit("spruce_hanging_sign");
    reveal_strlit("birch_hanging_sign");
    reveal_strlit("jungle_hanging_sign");
    reveal_strlit("acacia_hanging_sign");
    reveal_strlit("dark_oak_hanging_sign");
    reveal_strlit("mangrove_hanging_sign");
    reveal_strlit("cherry_hanging_sign");
    reveal_strlit("pale_oak_hanging_sign");
    reveal_strlit("bamboo_hanging_sign");
    reveal_strlit("crimson_hanging_sign");
    reveal_strlit("warped_hanging_sign");
    reveal_strlit("oak_wall_hanging_sign");
    reveal_strlit("spruce_wall_hanging_sign");
    reveal_strlit("birch_wall_hanging_sign");
    reveal_strlit("jungle_wall_hanging_sign");
    reveal_strlit("acacia_wall_hanging_sign");
    reveal_strlit("dark_oak_wall_hanging_sign");
    reveal_strlit("mangrove_wall_hanging_sign");
    reveal_strlit("cherry_wall_hanging_sign");
    reveal_strlit("pale_oak_wall_hanging_sign");
    reveal_strlit("bamboo_wall_hanging_sign");
    reveal_strlit("crimson_wall_hanging_sign");
    reveal_strlit("warped_wall_hanging_sign");
    reveal_strlit("white_banner");
    reveal_strlit("orange_banner");
    reveal_strlit("magenta_banner");
    reveal_strlit("light_blue_banner");
    reveal_strlit("yellow_banner");
    reveal_strlit("lime_banner");
    reveal_strlit("pink_banner");
    reveal_strlit("gray_banner");
    reveal_strlit("light_gray_banner");
    reveal_strlit("cyan_banner");
    reveal_strlit("purple_banner");
    reveal_strlit("blue_banner");
    reveal_strlit("brown_banner");
    reveal_strlit("green_banner");
    reveal_strlit("red_banner");
    reveal_strlit("black_banner");
    reveal_strlit("white_wall_banner");
    reveal_strlit("orange_wall_banner");
    reveal_strlit("magenta_wall_banner");
    reveal_strlit("light_blue_wall_banner");
    reveal_strlit("yellow_wall_banner");
    reveal_strlit("lime_wall_banner");
    reveal_strlit("pink_wall_banner");
    reveal_strlit("gray_wall_banner");
    reveal_strlit("light_gray_wall_banner");
    reveal_strlit("cyan_wall_banner");
    reveal_strlit("purple_wall_banner");
    reveal_strlit("blue_wall_banner");
    reveal_strlit("brown_wall_banner");
    reveal_strlit("green_wall_banner");
    reveal_strlit("red_wall_banner");
    reveal_strlit("black_wall_banner");
    reveal_strlit("white_bed");
    reveal_strlit("orange_bed");
    reveal_strlit("magenta_bed");
    reveal_strlit("light_blue_bed");
    reveal_strlit("yellow_bed");
    reveal_strlit("lime_bed");
    reveal_strlit("pink_bed");
    reveal_strlit("gray_bed");
    reveal_strlit("light_gray_bed");
    reveal_strlit("cyan_bed");
    reveal_strlit("purple_bed");
    reveal_strlit("blue_bed");
    reveal_strlit("brown_bed");
    reveal_strlit("green_bed");
    reveal_strlit("red_bed");
    reveal_strlit("black_bed");
    reveal_strlit("skeleton_skull");
    reveal_strlit("skeleton_wall_skull");
    reveal_strlit("wither_skeleton_skull");
    reveal_strlit("wither_skeleton_wall_skull");
    reveal_strlit("zombie_head");
    reveal_strlit("zombie_wall_head");
    reveal_strlit("player_head");
    reveal_strlit("player_wall_head");
    reveal_strlit("creeper_head");
    reveal_strlit("creeper_wall_head");
    reveal_strlit("dragon_head");
    reveal_strlit("dragon_wall_head");
    reveal_strlit("piglin_head");
    reveal_strlit("piglin_wall_head");
    reveal_strlit("conduit");
    reveal_strlit("decorated_pot");
    reveal_strlit("end_portal");
    reveal_strlit("end_gateway");
    reveal_strlit("beacon");
    reveal_strlit("spawner");
    reveal_strlit("trial_spawner");
    reveal_strlit("vault");
    reveal_strlit("brewing_stand");
    reveal_strlit("lectern");
    reveal_strlit("campfire");
    reveal_strlit("soul_campfire");
    reveal_strlit("beehive");
    reveal_strlit("bee_nest");
    reveal_strlit("bell");
    reveal_strlit("suspicious_sand");
    reveal_strlit("suspicious_gravel");
    reveal_strlit("crafter");
    assert(!block_entity_name("air"@) && !fluid_name("air"@)) by {
        assert("air"@.len() == 3);
    }
    assert(!block_entity_name("cave_air"@) && !fluid_name("cave_air"@)) by {
        assert("cave_air"@.len() == 8);
        assert("cave_air"@[0] != "oak_sign"@[0]);
        assert("cave_air"@[0] != "lime_bed"@[0]);
        assert("cave_air"@[0] != "pink_bed"@[0]);
        assert("cave_air"@[0] != "gray_bed"@[0]);
        assert("cave_air"@[1] != "cyan_bed"@[1]);
        assert("cave_air"@[0] != "blue_bed"@[0]);
        assert("cave_air"@[2] != "campfire"@[2]);
        assert("cave_air"@[0] != "bee_nest"@[0]);
    }
    assert(!block_entity_name("void_air"@) && !fluid_name("void_air"@)) by {
        assert("void_air"@.len() == 8);
        assert("void_air"@[0] != "oak_sign"@[0]);
        assert("void_air"@[0] != "lime_bed"@[0]);
        assert("void_air"@[0] != "pink_bed"@[0]);
        assert("void_air"@[0] != "gray_bed"@[0]);
        assert("void_air"@[0] != "cyan_bed"@[0]);
        assert("void_air"@[0] != "blue_bed"@[0]);
        assert("void_air"@[0] != "campfire"@[0]);
        assert("void_air"@[0] != "bee_nest"@[0]);
    }
    assert(!block_entity_name("barrier"@) && !fluid_name("barrier"@)) by {
        assert("barrier"@.len() == 7);
        assert("barrier"@[0] != "red_bed"@[0]);
        assert("barrier"@[0] != "conduit"@[0]);
        assert("barrier"@[0] != "spawner"@[0]);
        assert("barrier"@[0] != "lectern"@[0]);
        assert("barrier"@[1] != "beehive"@[1]);
        assert("barrier"@[0] != "crafter"@[0]);
    }
    assert(!block_entity_name("light"@) && !fluid_name("light"@)) by {
        assert("light"@.len() == 5);
        assert("light"@[0] != "chest"@[0]);
        assert("light"@[0] != "vault"@[0]);
        assert("light"@[0] != "water"@[0]);
    }
    assert(!block_entity_name("structure_void"@) && !fluid_name("structure_void"@)) by {
        assert("structure_void"@.len() == 14);
        assert("structure_void"@[0] != "magenta_banner"@[0]);
        assert("structure_void"@[0] != "light_blue_bed"@[0]);
        assert("structure_void"@[0] != "light_gray_bed"@[0]);
        assert("structure_void"@[1] != "skeleton_skull"@[1]);
    }
    assert(!block_entity_name("moving_piston"@) && !fluid_name("moving_piston"@)) by {
        assert("moving_piston"@.len() == 13);
        assert("moving_piston"@[0] != "trapped_chest"@[0]);
        assert("moving_piston"@[0] != "dark_oak_sign"@[0]);
        assert("moving_piston"@[1] != "mangrove_sign"@[1]);
        assert("moving_piston"@[0] != "pale_oak_sign"@[0]);
        assert("moving_piston"@[0] != "oak_wall_sign"@[0]);
        assert("moving_piston"@[0] != "orange_banner"@[0]);
        assert("moving_piston"@[0] != "yellow_banner"@[0]);
        assert("moving_piston"@[0] != "purple_banner"@[0]);
        assert("moving_piston"@[0] != "decorated_pot"@[0]);
        assert("moving_piston"@[0] != "trial_spawner"@[0]);
        assert("moving_piston"@[0] != "brewing_stand"@[0]);
        assert("moving_piston"@[0] != "soul_campfire"@[0]);
        assert("moving_piston"@[0] != "bubble_column"@[0]);
    }
    assert(!block_entity_name("heavy_core"@) && !fluid_name("heavy_core"@)) by {
        assert("heavy_core"@.len() == 10);
        assert("heavy_core"@[0] != "birch_sign"@[0]);
        assert("heavy_core"@[0] != "red_banner"@[0]);
        assert("heavy_core"@[0] != "orange_bed"@[0]);
        assert("heavy_core"@[0] != "yellow_bed"@[0]);
        assert("heavy_core"@[0] != "purple_bed"@[0]);
        assert("heavy_core"@[0] != "end_portal"@[0]);
    }
    assert(!block_entity_name("water"@)) by {
        assert("water"@.len() == 5);
        assert("water"@[0] != "chest"@[0]);
        assert("water"@[0] != "vault"@[0]);
    }
    assert(!block_entity_name("lava"@)) by {
        assert("lava"@.len() == 4);
        assert("lava"@[0] != "bell"@[0]);
    }
    assert(!block_entity_name("bubble_column"@)) by {
        assert("bubble_column"@.len() == 13);
        assert("bubble_column"@[0] != "trapped_chest"@[0]);
        assert("bubble_column"@[0] != "dark_oak_sign"@[0]);
        assert("bubble_column"@[0] != "mangrove_sign"@[0]);
        assert("bubble_column"@[0] != "pale_oak_sign"@[0]);
        assert("bubble_column"@[0] != "oak_wall_sign"@[0]);
        assert("bubble_column"@[0] != "orange_banner"@[0]);
        assert("bubble_column"@[0] != "yellow_banner"@[0]);
        assert("bubble_column"@[0] != "purple_banner"@[0]);
        assert("bubble_column"@[0] != "decorated_pot"@[0]);
        assert("bubble_column"@[0] != "trial_spawner"@[0]);
        assert("bubble_column"@[1] != "brewing_stand"@[1]);
        assert("bubble_column"@[0] != "soul_campfire"@[0]);
    }
}

} // verus!
