//! The survival inventory screen: which inventory slot each cell of the
//! 176 by 166 background shows, where the cell sits, and which sprite an
//! empty cell shows.

use vstd::prelude::*;
use crate::inventory::{slot_at, Inventory, ItemStack, PLAYER_SLOTS};
use crate::sprites::SpriteId;
use crate::tooltip::{decimal, decimal_string};

verus! {

/// A cell of the inventory screen. Its top-left corner lies at
/// `base_x + col * stride`, `base_y + row * stride` in pixels of the
/// background texture, where `stride` is the slot stride of the drawing
/// code.
#[derive(Clone, Copy, PartialEq, Eq, Debug, Structural)]
pub struct ScreenSlot {
    pub base_x: u16,
    pub base_y: u16,
    pub col: u16,
    pub row: u16,
    /// The inventory slot the cell shows.
    pub slot: u16,
    /// What the slot holds.
    pub item: ItemStack,
    /// The sprite an empty cell shows, where it shows one.
    pub empty_sprite: Option<SpriteId>,
}

/// The sprite of an empty armor cell, helmet first.
pub open spec fn armor_sprite(k: int) -> SpriteId {
    if k == 0 {
        SpriteId::EmptyHelmet
    } else if k == 1 {
        SpriteId::EmptyChestplate
    } else if k == 2 {
        SpriteId::EmptyLeggings
    } else {
        SpriteId::EmptyBoots
    }
}

/// A cell showing slot `slot` of `slots`.
pub open spec fn cell(
    slots: Seq<ItemStack>,
    base_x: int,
    base_y: int,
    col: int,
    row: int,
    slot: int,
    empty_sprite: Option<SpriteId>,
) -> ScreenSlot {
    ScreenSlot {
        base_x: base_x as u16,
        base_y: base_y as u16,
        col: col as u16,
        row: row as u16,
        slot: slot as u16,
        item: slot_at(slots, slot),
        empty_sprite,
    }
}

/// The `i`th cell of the screen, in drawing order: the nine hotbar cells
/// along the bottom, the three rows of the main inventory above them, the
/// four armor cells down the left, the two by two crafting grid, the
/// crafting output, and the offhand.
pub open spec fn spec_screen_slot(slots: Seq<ItemStack>, i: int) -> ScreenSlot {
    if i < 9 {
        cell(slots, 8, 142, i, 0, 36 + i, None)
    } else if i < 36 {
        let k = i - 9;
        cell(slots, 8, 84, k % 9, k / 9, 9 + k, None)
    } else if i < 40 {
        let k = i - 36;
        cell(slots, 8, 8 + 18 * k, 0, 0, 5 + k, Some(armor_sprite(k)))
    } else if i < 44 {
        let k = i - 40;
        cell(slots, 98, 18, k % 2, k / 2, 1 + k, None)
    } else if i == 44 {
        cell(slots, 154, 28, 0, 0, 0, None)
    } else {
        cell(slots, 77, 62, 0, 0, 45, Some(SpriteId::EmptyShield))
    }
}

/// Every cell of the screen, in drawing order.
pub open spec fn spec_screen_slots(slots: Seq<ItemStack>) -> Seq<ScreenSlot> {
    Seq::new(PLAYER_SLOTS as nat, |i: int| spec_screen_slot(slots, i))
}

/// The `i`th cell of the screen.
fn screen_slot(inventory: &Inventory, i: usize) -> (s: ScreenSlot)
    requires
        i < PLAYER_SLOTS,
    ensures
        s == spec_screen_slot(inventory@, i as int),
{
    let (base_x, base_y, col, row, slot, empty_sprite): (u16, u16, u16, u16, u16, Option<
        SpriteId,
    >) = if i < 9 {
        (8, 142, i as u16, 0, 36 + i as u16, None)
    } else if i < 36 {
        let k = (i - 9) as u16;
        (8, 84, k % 9, k / 9, 9 + k, None)
    } else if i < 40 {
        let k = (i - 36) as u16;
        let sprite = if k == 0 {
            SpriteId::EmptyHelmet
        } else if k == 1 {
            SpriteId::EmptyChestplate
        } else if k == 2 {
            SpriteId::EmptyLeggings
        } else {
            SpriteId::EmptyBoots
        };
        (8, 8 + 18 * k, 0, 0, 5 + k, Some(sprite))
    } else if i < 44 {
        let k = (i - 40) as u16;
        (98, 18, k % 2, k / 2, 1 + k, None)
    } else if i == 44 {
        (154, 28, 0, 0, 0, None)
    } else {
        (77, 62, 0, 0, 45, Some(SpriteId::EmptyShield))
    };
    let item = *inventory.slot(slot as usize);
    ScreenSlot { base_x, base_y, col, row, slot, item, empty_sprite }
}

/// The cells of the survival inventory screen, in the order they are drawn.
pub fn screen_slots(inventory: &Inventory) -> (v: Vec<ScreenSlot>)
    ensures
        v@ == spec_screen_slots(inventory@),
{
    let mut v: Vec<ScreenSlot> = Vec::new();
    for i in 0..PLAYER_SLOTS
        invariant
            v@ == Seq::new(i as nat, |j: int| spec_screen_slot(inventory@, j)),
    {
        v.push(screen_slot(inventory, i));
        assert(v@ =~= Seq::new((i + 1) as nat, |j: int| spec_screen_slot(inventory@, j)));
    }
    v
}

/// The count drawn over a slot: that of a present stack of more than one
/// item, in decimal.
pub fn count_label(item: &ItemStack) -> (r: Option<String>)
    ensures
        match *item {
            ItemStack::Present(d) => if d.count > 1 {
                r is Some && r->0@ == decimal(d.count as int)
            } else {
                r is None
            },
            ItemStack::Empty => r is None,
        },
{
    match item {
        ItemStack::Present(d) => if d.count > 1 {
            Some(decimal_string(d.count as i64))
        } else {
            None
        },
        ItemStack::Empty => None,
    }
}

/// Law: the screen shows every slot of the inventory exactly once, each cell
/// with the stack its slot holds.
pub proof fn lemma_screen_shows_each_slot(slots: Seq<ItemStack>, n: int)
    requires
        0 <= n < PLAYER_SLOTS,
    ensures
        exists|i: int|
            0 <= i < PLAYER_SLOTS && (#[trigger] spec_screen_slots(slots)[i]).slot == n,
        forall|i: int, j: int|
            0 <= i < PLAYER_SLOTS && 0 <= j < PLAYER_SLOTS && i != j ==> (
            #[trigger] spec_screen_slots(slots)[i]).slot != (
            #[trigger] spec_screen_slots(slots)[j]).slot,
        forall|i: int|
            0 <= i < PLAYER_SLOTS ==> (#[trigger] spec_screen_slots(slots)[i]).item == slot_at(
                slots,
                spec_screen_slots(slots)[i].slot as int,
            ),
{
    let w = if n == 0 {
        44
    } else if n < 5 {
        40 + (n - 1)
    } else if n < 9 {
        36 + (n - 5)
    } else if n < 36 {
        9 + (n - 9)
    } else if n < 45 {
        n - 36
    } else {
        45
    };
    assert(spec_screen_slots(slots)[w].slot == n);
    assert forall|i: int, j: int|
        0 <= i < PLAYER_SLOTS && 0 <= j < PLAYER_SLOTS && i != j implies (
        #[trigger] spec_screen_slots(slots)[i]).slot != (
        #[trigger] spec_screen_slots(slots)[j]).slot by {
        assert(spec_screen_slots(slots)[i].slot == screen_slot_number(i));
        assert(spec_screen_slots(slots)[j].slot == screen_slot_number(j));
    }
}

/// Law: where each slot appears on the screen, by its slot number. The
/// crafting inputs 1 to 4 fill a two by two grid row by row from (98, 18);
/// the armor slots 5 to 8 go down the left edge from (8, 8), 18 pixels
/// apart, helmet first; the main inventory, slots 9 to 35, fills three rows
/// of nine row by row from (8, 84); the hotbar, slots 36 to 44, runs along
/// (8, 142); the crafting output sits at (154, 28) and the offhand at
/// (77, 62) with the shield sprite.
pub proof fn lemma_screen_cell_places(slots: Seq<ItemStack>, i: int)
    requires
        0 <= i < PLAYER_SLOTS,
    ensures
        ({
            let c = spec_screen_slots(slots)[i];
            let n = c.slot as int;
            &&& 1 <= n <= 4 ==> c.base_x == 98 && c.base_y == 18 && c.col == (n - 1) % 2 && c.row
                == (n - 1) / 2 && c.empty_sprite is None
            &&& 5 <= n <= 8 ==> c.base_x == 8 && c.base_y == 8 + 18 * (n - 5) && c.col == 0
                && c.row == 0
            &&& n == 5 ==> c.empty_sprite == Some(SpriteId::EmptyHelmet)
            &&& n == 6 ==> c.empty_sprite == Some(SpriteId::EmptyChestplate)
            &&& n == 7 ==> c.empty_sprite == Some(SpriteId::EmptyLeggings)
            &&& n == 8 ==> c.empty_sprite == Some(SpriteId::EmptyBoots)
            &&& 9 <= n <= 35 ==> c.base_x == 8 && c.base_y == 84 && c.col == (n - 9) % 9 && c.row
                == (n - 9) / 9 && c.empty_sprite is None
            &&& 36 <= n <= 44 ==> c.base_x == 8 && c.base_y == 142 && c.col == n - 36 && c.row == 0
                && c.empty_sprite is None
            &&& n == 0 ==> c.base_x == 154 && c.base_y == 28 && c.empty_sprite is None
            &&& n == 45 ==> c.base_x == 77 && c.base_y == 62 && c.empty_sprite == Some(
                SpriteId::EmptyShield,
            )
            &&& 0 <= n < PLAYER_SLOTS
            &&& c.item == slot_at(slots, n)
        }),
{
}

/// The inventory slot the `i`th cell shows.
spec fn screen_slot_number(i: int) -> int {
    if i < 9 {
        36 + i
    } else if i < 36 {
        i
    } else if i < 40 {
        i - 31
    } else if i < 44 {
        i - 39
    } else if i == 44 {
        0
    } else {
        45
    }
}

} // verus!
