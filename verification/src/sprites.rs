//! The sprites that the library's layouts refer to.

use vstd::prelude::*;

verus! {

/// The row of creative tabs a tab sits in: above or below the panel.
#[derive(Clone, Copy, PartialEq, Eq, Debug, Structural)]
pub enum TabRow {
    Top,
    Bottom,
}

/// A sprite of the GUI atlas.
#[derive(Clone, Copy, PartialEq, Eq, Debug, Structural)]
pub enum SpriteId {
    InventoryBackground,
    CreativeItemsBackground,
    CreativeSearchBackground,
    CreativeInventoryBackground,
    CreativeScroller,
    CreativeScrollerDisabled,
    /// A creative tab: its row, whether it is the selected one, and its
    /// column, from 1 to 7.
    CreativeTab { row: TabRow, selected: bool, column: u8 },
    EmptyHelmet,
    EmptyChestplate,
    EmptyLeggings,
    EmptyBoots,
    EmptyShield,
    SteveHead,
    PingUnknown,
    Ping1,
    Ping2,
    Ping3,
    Ping4,
    Ping5,
}

} // verus!
