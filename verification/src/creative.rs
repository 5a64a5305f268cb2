//! The tabs of the creative inventory: their place, icon, title and item
//! source, and the decisions the creative screen takes on input.

use vstd::prelude::*;
use crate::sprites::{SpriteId, TabRow};
use crate::player_tab::strings_view;
use crate::inventory::{slot_at, Inventory, ItemStack, ItemStackData, HOTBAR_START};
use crate::text::{chars_of, is_control, is_control_char, pop_char, push_char, utf8_len};

verus! {

/// A tab of the creative inventory.
#[derive(Clone, Copy, PartialEq, Eq, Debug, Structural)]
pub enum CreativeTab {
    BuildingBlocks,
    ColoredBlocks,
    NaturalBlocks,
    FunctionalBlocks,
    RedstoneBlocks,
    Hotbar,
    Search,
    ToolsAndUtilities,
    Combat,
    FoodAndDrinks,
    Ingredients,
    SpawnEggs,
    OpBlocks,
    SurvivalInventory,
}

/// A fixed list of items that a tab shows.
#[derive(Clone, Copy, PartialEq, Eq, Debug, Structural)]
pub enum ItemList {
    BuildingBlocks,
    ColoredBlocks,
    NaturalBlocks,
    FunctionalBlocks,
    RedstoneBlocks,
    ToolsAndUtilities,
    Combat,
    FoodAndDrinks,
    Ingredients,
    SpawnEggs,
    OpBlocks,
}

/// Where a tab takes its items from.
#[derive(Clone, Copy, PartialEq, Eq, Debug, Structural)]
pub enum ItemSource {
    /// A fixed list.
    Static(ItemList),
    /// The items that match the search text.
    Search,
    /// No items.
    Empty,
}

/// What the screen knows of a tab.
pub struct TabMeta {
    pub row: TabRow,
    pub col: u8,
    pub icon: &'static str,
    pub title: &'static str,
    pub items: ItemSource,
}

/// The row of a tab.
pub open spec fn tab_row(tab: CreativeTab) -> TabRow {
    match tab {
        CreativeTab::BuildingBlocks => TabRow::Top,
        CreativeTab::ColoredBlocks => TabRow::Top,
        CreativeTab::NaturalBlocks => TabRow::Top,
        CreativeTab::FunctionalBlocks => TabRow::Top,
        CreativeTab::RedstoneBlocks => TabRow::Top,
        CreativeTab::Hotbar => TabRow::Top,
        CreativeTab::Search => TabRow::Top,
        CreativeTab::ToolsAndUtilities => TabRow::Bottom,
        CreativeTab::Combat => TabRow::Bottom,
        CreativeTab::FoodAndDrinks => TabRow::Bottom,
        CreativeTab::Ingredients => TabRow::Bottom,
        CreativeTab::SpawnEggs => TabRow::Bottom,
        CreativeTab::OpBlocks => TabRow::Bottom,
        CreativeTab::SurvivalInventory => TabRow::Bottom,
    }
}

/// The column of a tab, from 1 to 7.
pub open spec fn tab_col(tab: CreativeTab) -> u8 {
    match tab {
        CreativeTab::BuildingBlocks => 1,
        CreativeTab::ColoredBlocks => 2,
        CreativeTab::NaturalBlocks => 3,
        CreativeTab::FunctionalBlocks => 4,
        CreativeTab::RedstoneBlocks => 5,
        CreativeTab::Hotbar => 6,
        CreativeTab::Search => 7,
        CreativeTab::ToolsAndUtilities => 1,
        CreativeTab::Combat => 2,
        CreativeTab::FoodAndDrinks => 3,
        CreativeTab::Ingredients => 4,
        CreativeTab::SpawnEggs => 5,
        CreativeTab::OpBlocks => 6,
        CreativeTab::SurvivalInventory => 7,
    }
}

/// The name of the item drawn as the icon of a tab.
pub open spec fn tab_icon(tab: CreativeTab) -> Seq<char> {
    match tab {
        CreativeTab::BuildingBlocks => "bricks"@,
        CreativeTab::ColoredBlocks => "cyan_wool"@,
        CreativeTab::NaturalBlocks => "grass_block"@,
        CreativeTab::FunctionalBlocks => "oak_sign"@,
        CreativeTab::RedstoneBlocks => "redstone"@,
        CreativeTab::Hotbar => "bookshelf"@,
        CreativeTab::Search => "compass"@,
        CreativeTab::ToolsAndUtilities => "diamond_pickaxe"@,
        CreativeTab::Combat => "netherite_sword"@,
        CreativeTab::FoodAndDrinks => "golden_apple"@,
        CreativeTab::Ingredients => "iron_ingot"@,
        CreativeTab::SpawnEggs => "creeper_spawn_egg"@,
        CreativeTab::OpBlocks => "command_block"@,
        CreativeTab::SurvivalInventory => "chest"@,
    }
}

/// The title of a tab.
pub open spec fn tab_title(tab: CreativeTab) -> Seq<char> {
    match tab {
        CreativeTab::BuildingBlocks => "Building Blocks"@,
        CreativeTab::ColoredBlocks => "Colored Blocks"@,
        CreativeTab::NaturalBlocks => "Natural Blocks"@,
        CreativeTab::FunctionalBlocks => "Functional Blocks"@,
        CreativeTab::RedstoneBlocks => "Redstone Blocks"@,
        CreativeTab::Hotbar => "Saved Hotbars"@,
        CreativeTab::Search => "Search"@,
        CreativeTab::ToolsAndUtilities => "Tools & Utilities"@,
        CreativeTab::Combat => "Combat"@,
        CreativeTab::FoodAndDrinks => "Food & Drinks"@,
        CreativeTab::Ingredients => "Ingredients"@,
        CreativeTab::SpawnEggs => "Spawn Eggs"@,
        CreativeTab::OpBlocks => "Operator Utilities"@,
        CreativeTab::SurvivalInventory => "Survival Inventory"@,
    }
}

/// Where a tab takes its items from.
pub open spec fn tab_items(tab: CreativeTab) -> ItemSource {
    match tab {
        CreativeTab::BuildingBlocks => ItemSource::Static(ItemList::BuildingBlocks),
        CreativeTab::ColoredBlocks => ItemSource::Static(ItemList::ColoredBlocks),
        CreativeTab::NaturalBlocks => ItemSource::Static(ItemList::NaturalBlocks),
        CreativeTab::FunctionalBlocks => ItemSource::Static(ItemList::FunctionalBlocks),
        CreativeTab::RedstoneBlocks => ItemSource::Static(ItemList::RedstoneBlocks),
        CreativeTab::Hotbar => ItemSource::Empty,
        CreativeTab::Search => ItemSource::Search,
        CreativeTab::ToolsAndUtilities => ItemSource::Static(ItemList::ToolsAndUtilities),
        CreativeTab::Combat => ItemSource::Static(ItemList::Combat),
        CreativeTab::FoodAndDrinks => ItemSource::Static(ItemList::FoodAndDrinks),
        CreativeTab::Ingredients => ItemSource::Static(ItemList::Ingredients),
        CreativeTab::SpawnEggs => ItemSource::Static(ItemList::SpawnEggs),
        CreativeTab::OpBlocks => ItemSource::Static(ItemList::OpBlocks),
        CreativeTab::SurvivalInventory => ItemSource::Empty,
    }
}

impl CreativeTab {
    /// The row, column, icon, title and item source of the tab.
    pub fn meta(self) -> (m: TabMeta)
        ensures
            m.row == tab_row(self),
            m.col == tab_col(self),
            m.icon@ == tab_icon(self),
            m.title@ == tab_title(self),
            m.items == tab_items(self),
    {
        match self {
            CreativeTab::BuildingBlocks => TabMeta {
                row: TabRow::Top,
                col: 1,
                icon: "bricks",
                title: "Building Blocks",
                items: ItemSource::Static(ItemList::BuildingBlocks),
            },
            CreativeTab::ColoredBlocks => TabMeta {
                row: TabRow::Top,
                col: 2,
                icon: "cyan_wool",
                title: "Colored Blocks",
                items: ItemSource::Static(ItemList::ColoredBlocks),
            },
            CreativeTab::NaturalBlocks => TabMeta {
                row: TabRow::Top,
                col: 3,
                icon: "grass_block",
                title: "Natural Blocks",
                items: ItemSource::Static(ItemList::NaturalBlocks),
            },
            CreativeTab::FunctionalBlocks => TabMeta {
                row: TabRow::Top,
                col: 4,
                icon: "oak_sign",
                title: "Functional Blocks",
                items: ItemSource::Static(ItemList::FunctionalBlocks),
            },
            CreativeTab::RedstoneBlocks => TabMeta {
                row: TabRow::Top,
                col: 5,
                icon: "redstone",
                title: "Redstone Blocks",
                items: ItemSource::Static(ItemList::RedstoneBlocks),
            },
            CreativeTab::Hotbar => TabMeta {
                row: TabRow::Top,
                col: 6,
                icon: "bookshelf",
                title: "Saved Hotbars",
                items: ItemSource::Empty,
            },
            CreativeTab::Search => TabMeta {
                row: TabRow::Top,
                col: 7,
                icon: "compass",
                title: "Search",
                items: ItemSource::Search,
            },
            CreativeTab::ToolsAndUtilities => TabMeta {
                row: TabRow::Bottom,
                col: 1,
                icon: "diamond_pickaxe",
                title: "Tools & Utilities",
                items: ItemSource::Static(ItemList::ToolsAndUtilities),
            },
            CreativeTab::Combat => TabMeta {
                row: TabRow::Bottom,
                col: 2,
                icon: "netherite_sword",
                title: "Combat",
                items: ItemSource::Static(ItemList::Combat),
            },
            CreativeTab::FoodAndDrinks => TabMeta {
                row: TabRow::Bottom,
                col: 3,
                icon: "golden_apple",
                title: "Food & Drinks",
                items: ItemSource::Static(ItemList::FoodAndDrinks),
            },
            CreativeTab::Ingredients => TabMeta {
                row: TabRow::Bottom,
                col: 4,
                icon: "iron_ingot",
                title: "Ingredients",
                items: ItemSource::Static(ItemList::Ingredients),
            },
            CreativeTab::SpawnEggs => TabMeta {
                row: TabRow::Bottom,
                col: 5,
                icon: "creeper_spawn_egg",
                title: "Spawn Eggs",
                items: ItemSource::Static(ItemList::SpawnEggs),
            },
            CreativeTab::OpBlocks => TabMeta {
                row: TabRow::Bottom,
                col: 6,
                icon: "command_block",
                title: "Operator Utilities",
                items: ItemSource::Static(ItemList::OpBlocks),
            },
            CreativeTab::SurvivalInventory => TabMeta {
                row: TabRow::Bottom,
                col: 7,
                icon: "chest",
                title: "Survival Inventory",
                items: ItemSource::Empty,
            },
        }
    }
}

impl CreativeTab {
    /// Whether the tab scrolls: it shows a fixed list or search results.
    pub fn scrollable(self) -> (r: bool)
        ensures
            r == (tab_items(self) is Static || tab_items(self) is Search),
    {
        match self.meta().items {
            ItemSource::Static(_) | ItemSource::Search => true,
            ItemSource::Empty => false,
        }
    }

    /// Whether the tab shows the player's own inventory.
    pub fn is_inventory_tab(self) -> (r: bool)
        ensures
            r == (self == CreativeTab::SurvivalInventory),
    {
        matches!(self, CreativeTab::SurvivalInventory)
    }

    /// Whether the tab's title is drawn: on every tab but the inventory.
    pub fn shows_title(self) -> (r: bool)
        ensures
            r == (self != CreativeTab::SurvivalInventory),
    {
        !self.is_inventory_tab()
    }

    /// The panel drawn behind the tab's content.
    pub fn background_sprite(self) -> (s: SpriteId)
        ensures
            s == (match self {
                CreativeTab::Search => SpriteId::CreativeSearchBackground,
                CreativeTab::SurvivalInventory => SpriteId::CreativeInventoryBackground,
                _ => SpriteId::CreativeItemsBackground,
            }),
    {
        match self {
            CreativeTab::Search => SpriteId::CreativeSearchBackground,
            CreativeTab::SurvivalInventory => SpriteId::CreativeInventoryBackground,
            _ => SpriteId::CreativeItemsBackground,
        }
    }

    /// Whether typed characters go to the tab: only the search tab takes them.
    pub fn captures_typing(self) -> (r: bool)
        ensures
            r == (self == CreativeTab::Search),
    {
        matches!(self, CreativeTab::Search)
    }
}

/// The tabs the screen shows, in the order they are drawn and hit-tested.
/// Saved hotbars and operator utilities are not shown.
pub open spec fn shown_tabs() -> Seq<CreativeTab> {
    seq![
        CreativeTab::BuildingBlocks,
        CreativeTab::ColoredBlocks,
        CreativeTab::NaturalBlocks,
        CreativeTab::FunctionalBlocks,
        CreativeTab::RedstoneBlocks,
        CreativeTab::Search,
        CreativeTab::ToolsAndUtilities,
        CreativeTab::Combat,
        CreativeTab::FoodAndDrinks,
        CreativeTab::Ingredients,
        CreativeTab::SpawnEggs,
        CreativeTab::SurvivalInventory,
    ]
}

/// The tabs the screen shows, in the order they are drawn and hit-tested.
pub fn tabs() -> (v: Vec<CreativeTab>)
    ensures
        v@ == shown_tabs(),
{
    let v = vec![
        CreativeTab::BuildingBlocks,
        CreativeTab::ColoredBlocks,
        CreativeTab::NaturalBlocks,
        CreativeTab::FunctionalBlocks,
        CreativeTab::RedstoneBlocks,
        CreativeTab::Search,
        CreativeTab::ToolsAndUtilities,
        CreativeTab::Combat,
        CreativeTab::FoodAndDrinks,
        CreativeTab::Ingredients,
        CreativeTab::SpawnEggs,
        CreativeTab::SurvivalInventory,
    ];
    assert(v@ =~= shown_tabs());
    v
}

/// Law: the shown tabs occupy distinct places: no two share a row and a
/// column.
pub proof fn lemma_shown_tabs_distinct_places()
    ensures
        forall|i: int, j: int|
            0 <= i < j < shown_tabs().len() ==> (tab_row(shown_tabs()[i]) != tab_row(shown_tabs()[j])
                || tab_col(shown_tabs()[i]) != tab_col(shown_tabs()[j])),
{
}

/// The column a tab sprite is drawn for: the tab's column, kept within 1 to 7.
pub open spec fn sprite_column(col: u8) -> u8 {
    if col < 1 {
        1
    } else if col > 7 {
        7
    } else {
        col
    }
}

/// The sprite of a tab in `row` and column `col`, selected or not.
pub fn tab_sprite(row: TabRow, col: u8, selected: bool) -> (s: SpriteId)
    ensures
        s == (SpriteId::CreativeTab { row, selected, column: sprite_column(col) }),
{
    let column = if col < 1 {
        1
    } else if col > 7 {
        7
    } else {
        col
    };
    SpriteId::CreativeTab { row, selected, column }
}

/// The width of the creative panel in unscaled pixels.
pub const PANEL_W: i32 = 195;

/// The distance between two tabs.
pub const TAB_STRIDE: i32 = 27;

/// The left edge of a tab in column `col`, in unscaled pixels from the left of
/// the panel: the first five columns count from the left edge, the others
/// from the right.
pub open spec fn spec_tab_local_x(col: u8) -> int {
    if col >= 6 {
        PANEL_W - TAB_STRIDE * (8 - col) + 1
    } else {
        (col - 1) * TAB_STRIDE
    }
}

/// The left edge of a tab in column `col`, in unscaled pixels from the left of
/// the panel.
pub fn tab_local_x(col: u8) -> (x: i32)
    ensures
        x == spec_tab_local_x(col),
{
    let c = col as i32;
    if col >= 6 {
        PANEL_W - TAB_STRIDE * (8 - c) + 1
    } else {
        (c - 1) * TAB_STRIDE
    }
}

/// The roman numeral of an enchantment level from 1 to 10; empty for other
/// levels.
pub open spec fn spec_roman(n: i32) -> Seq<char> {
    if n == 1 {
        "I"@
    } else if n == 2 {
        "II"@
    } else if n == 3 {
        "III"@
    } else if n == 4 {
        "IV"@
    } else if n == 5 {
        "V"@
    } else if n == 6 {
        "VI"@
    } else if n == 7 {
        "VII"@
    } else if n == 8 {
        "VIII"@
    } else if n == 9 {
        "IX"@
    } else if n == 10 {
        "X"@
    } else {
        ""@
    }
}

/// The roman numeral of an enchantment level from 1 to 10; empty for other
/// levels.
pub fn roman(n: i32) -> (r: &'static str)
    ensures
        r@ == spec_roman(n),
{
    match n {
        1 => "I",
        2 => "II",
        3 => "III",
        4 => "IV",
        5 => "V",
        6 => "VI",
        7 => "VII",
        8 => "VIII",
        9 => "IX",
        10 => "X",
        _ => "",
    }
}

/// The search text holds fewer than this many bytes.
pub const SEARCH_MAX_BYTES: usize = 50;

/// The search text after typing `typed`: each character that is not a
/// control character is appended while the text is shorter than 50 bytes.
pub open spec fn typed_into(search: Seq<char>, typed: Seq<char>) -> Seq<char>
    decreases typed.len(),
{
    if typed.len() == 0 {
        search
    } else {
        let before = typed_into(search, typed.drop_last());
        let c = typed.last();
        if utf8_len(before) < SEARCH_MAX_BYTES && !is_control(c) {
            before.push(c)
        } else {
            before
        }
    }
}

/// Whether typing `typed` into `search` appends at least one character.
pub open spec fn typing_appends(search: Seq<char>, typed: Seq<char>) -> bool {
    typed_into(search, typed).len() > search.len()
}

proof fn lemma_utf8_len_push(s: Seq<char>, c: char)
    ensures
        utf8_len(s.push(c)) == utf8_len(s) + vstd::utf8::encode_scalar(c as u32).len(),
        1 <= vstd::utf8::encode_scalar(c as u32).len() <= 4,
    decreases s.len(),
{
    let t = s.push(c);
    if s.len() > 0 {
        lemma_utf8_len_push(s.drop_first(), c);
        assert(t.drop_first() =~= s.drop_first().push(c));
        assert(t[0] == s[0]);
        assert(vstd::utf8::encode_utf8(t) == vstd::utf8::encode_scalar(s[0] as u32)
            + vstd::utf8::encode_utf8(t.drop_first()));
        assert(vstd::utf8::encode_utf8(s) == vstd::utf8::encode_scalar(s[0] as u32)
            + vstd::utf8::encode_utf8(s.drop_first()));
    } else {
        assert(t.drop_first() =~= Seq::<char>::empty());
        assert(t[0] == c);
        assert(vstd::utf8::encode_utf8(t) == vstd::utf8::encode_scalar(c as u32)
            + vstd::utf8::encode_utf8(t.drop_first()));
        assert(vstd::utf8::encode_utf8(s) == Seq::<u8>::empty());
    }
}

/// Law: typing keeps the search text at most 53 bytes long, the most that
/// appending one character to a text under 50 bytes can give.
pub proof fn lemma_search_stays_short(search: Seq<char>, typed: Seq<char>)
    requires
        utf8_len(search) <= 53,
    ensures
        utf8_len(typed_into(search, typed)) <= 53,
    decreases typed.len(),
{
    if typed.len() > 0 {
        lemma_search_stays_short(search, typed.drop_last());
        let before = typed_into(search, typed.drop_last());
        lemma_utf8_len_push(before, typed.last());
    }
}

proof fn lemma_typed_into_grows(search: Seq<char>, typed: Seq<char>)
    ensures
        typed_into(search, typed).len() >= search.len(),
        typed_into(search, typed).subrange(0, search.len() as int) == search,
    decreases typed.len(),
{
    if typed.len() > 0 {
        lemma_typed_into_grows(search, typed.drop_last());
        let before = typed_into(search, typed.drop_last());
        assert(before.push(typed.last()).subrange(0, search.len() as int) =~= before.subrange(
            0,
            search.len() as int,
        ));
    }
}

/// Applies keyboard input to the search text of the creative screen, when
/// `tab` takes typing: a backspace removes the last character, then each
/// typed character is appended as `typed_into` says. Returns whether the
/// caret blink restarts: on a backspace, or when a character was appended.
/// Other tabs leave the text alone and return false.
pub fn edit_search(
    tab: CreativeTab,
    search: &mut String,
    backspace: bool,
    typed: &Vec<char>,
) -> (restart_blink: bool)
    ensures
        tab != CreativeTab::Search ==> final(search)@ == old(search)@ && !restart_blink,
        tab == CreativeTab::Search ==> {
            let after_backspace = if backspace && old(search)@.len() > 0 {
                old(search)@.drop_last()
            } else {
                old(search)@
            };
            &&& final(search)@ == typed_into(after_backspace, typed@)
            &&& restart_blink == (backspace || typing_appends(after_backspace, typed@))
        },
{
    if !tab.captures_typing() {
        return false;
    }
    let mut restart = false;
    if backspace {
        pop_char(search);
        restart = true;
    }
    let ghost start = search@;
    let mut appended = false;
    for i in 0..typed.len()
        invariant
            search@ == typed_into(start, typed@.take(i as int)),
            appended == typing_appends(start, typed@.take(i as int)),
    {
        let ghost before = search@;
        assert(typed@.take(i + 1).drop_last() =~= typed@.take(i as int));
        let ch = typed[i];
        proof {
            lemma_typed_into_grows(start, typed@.take(i as int));
        }
        if search.as_str().as_bytes().len() < SEARCH_MAX_BYTES && !is_control_char(ch) {
            push_char(search, ch);
            appended = true;
        }
    }
    assert(typed@.take(typed@.len() as int) =~= typed@);
    restart || appended
}

/// The item grid of the creative screen is nine columns wide.
pub const GRID_COLS: usize = 9;

/// The item grid shows five rows at a time.
pub const GRID_ROWS: usize = 5;

/// Whether the search caret shows: for the first half of every second since
/// the caret last moved; `elapsed_ms` is the time since then in milliseconds.
pub fn caret_visible(elapsed_ms: u128) -> (r: bool)
    ensures
        r == (elapsed_ms % 1000 < 500),
{
    elapsed_ms % 1000 < 500
}

/// How many rows the item grid can scroll by: the rows the items fill, less
/// the five shown, and none for a tab that does not scroll.
pub open spec fn spec_max_scroll_rows(item_count: int, scrollable: bool) -> int {
    if scrollable {
        let rows = (item_count + GRID_COLS - 1) / (GRID_COLS as int);
        if rows > GRID_ROWS {
            rows - GRID_ROWS
        } else {
            0
        }
    } else {
        0
    }
}

/// How many rows the item grid can scroll by.
pub fn max_scroll_rows(item_count: usize, scrollable: bool) -> (r: usize)
    ensures
        r == spec_max_scroll_rows(item_count as int, scrollable),
{
    if scrollable {
        let rows = item_count / GRID_COLS + if item_count % GRID_COLS != 0 {
            1
        } else {
            0
        };
        assert(rows == (item_count + GRID_COLS - 1) / (GRID_COLS as int));
        if rows > GRID_ROWS {
            rows - GRID_ROWS
        } else {
            0
        }
    } else {
        0
    }
}

/// The index into the tab's items of the grid cell in `row` and `col` when
/// the grid is scrolled down by `scroll_rows` rows.
pub open spec fn spec_grid_item_index(scroll_rows: int, row: int, col: int) -> int {
    scroll_rows * GRID_COLS + row * GRID_COLS + col
}

/// The index into the tab's items of a grid cell.
pub fn grid_item_index(scroll_rows: usize, row: usize, col: usize) -> (r: usize)
    requires
        row < GRID_ROWS,
        col < GRID_COLS,
        spec_grid_item_index(scroll_rows as int, row as int, col as int) <= usize::MAX,
    ensures
        r == spec_grid_item_index(scroll_rows as int, row as int, col as int),
{
    scroll_rows * GRID_COLS + row * GRID_COLS + col
}

/// The slot an item clicked in the grid is placed into: the selected hotbar
/// slot.
pub fn hotbar_slot_number(selected_hotbar: u8) -> (r: u16)
    ensures
        r == HOTBAR_START + selected_hotbar,
{
    36 + selected_hotbar as u16
}

/// What the creative screen asks of the game after a frame.
#[derive(Clone, Copy, PartialEq, Eq, Debug, Structural)]
pub enum CreativeAction {
    /// Nothing to do.
    Nothing,
    /// Close the screen.
    Close,
    /// Put the stack into the inventory slot.
    Place(ItemStack, u16),
}

/// The tab selected after a click: the tab that was hit, where one was, else
/// the current one; and whether the selection changed, which resets the
/// scroll position and the caret blink.
pub fn select_tab(current: CreativeTab, hit: Option<CreativeTab>) -> (r: (CreativeTab, bool))
    ensures
        r.1 == (hit is Some && hit->0 != current),
        r.0 == if r.1 {
            hit->0
        } else {
            current
        },
{
    match hit {
        Some(t) => if t != current {
            (t, true)
        } else {
            (current, false)
        },
        None => (current, false),
    }
}

/// What was under the cursor in a frame of the creative screen, as the
/// drawing code found it.
pub struct CreativeInput {
    /// A click happened this frame.
    pub clicked: bool,
    /// The click was taken by the scrollbar and does not reach the grid.
    pub click_on_scrollbar: bool,
    /// A tab was under the click.
    pub tab_hit: bool,
    /// The cursor is outside the panel.
    pub outside: bool,
    /// The item of the last grid cell under the cursor, where one was.
    pub hovered_grid_item: Option<ItemStack>,
    /// On the inventory tab: the inventory slot clicked, where a present item
    /// was clicked.
    pub layout_click: Option<u16>,
    /// On other tabs: the hotbar slot clicked, where a present item was
    /// clicked.
    pub hotbar_click: Option<u16>,
    /// The selected hotbar slot, 0 to 8.
    pub selected_hotbar: u8,
}

/// The action of a frame of the creative screen on `tab`: on the inventory
/// tab, a clicked slot is emptied. On other tabs a click on a present item of
/// a scrolling grid places one of it in the selected hotbar slot, else a
/// clicked hotbar slot is emptied. A click outside the panel that hit no tab
/// and did nothing else closes the screen.
pub open spec fn spec_creative_action(tab: CreativeTab, input: CreativeInput) -> CreativeAction {
    let first = if tab == CreativeTab::SurvivalInventory {
        match input.layout_click {
            Some(slot) => CreativeAction::Place(ItemStack::Empty, slot),
            None => CreativeAction::Nothing,
        }
    } else {
        let grid = match input.hovered_grid_item {
            Some(ItemStack::Present(data)) => if input.clicked && !input.click_on_scrollbar && (
            tab_items(tab) is Static || tab_items(tab) is Search) {
                CreativeAction::Place(
                    ItemStack::Present(data),
                    (HOTBAR_START + input.selected_hotbar) as u16,
                )
            } else {
                CreativeAction::Nothing
            },
            _ => CreativeAction::Nothing,
        };
        match (grid, input.hotbar_click) {
            (CreativeAction::Nothing, Some(slot)) => CreativeAction::Place(ItemStack::Empty, slot),
            _ => grid,
        }
    };
    if input.clicked && input.outside && !input.tab_hit && first == CreativeAction::Nothing {
        CreativeAction::Close
    } else {
        first
    }
}

/// The action of a frame of the creative screen on `tab`.
pub fn creative_action(tab: CreativeTab, input: &CreativeInput) -> (a: CreativeAction)
    ensures
        a == spec_creative_action(tab, *input),
{
    let mut action = CreativeAction::Nothing;
    if tab.is_inventory_tab() {
        if let Some(slot) = input.layout_click {
            action = CreativeAction::Place(ItemStack::Empty, slot);
        }
    } else {
        let grid_clicked = input.clicked && !input.click_on_scrollbar;
        if let Some(ItemStack::Present(data)) = input.hovered_grid_item {
            if grid_clicked && tab.scrollable() {
                action = CreativeAction::Place(
                    ItemStack::Present(data),
                    hotbar_slot_number(input.selected_hotbar),
                );
            }
        }
        if let Some(slot) = input.hotbar_click {
            if action == CreativeAction::Nothing {
                action = CreativeAction::Place(ItemStack::Empty, slot);
            }
        }
    }
    if input.clicked && input.outside && !input.tab_hit && action == CreativeAction::Nothing {
        action = CreativeAction::Close;
    }
    action
}

/// Law: a grid item is placed only when a click lands on it: the stack
/// placed is the one under the cursor, it goes to the selected hotbar slot,
/// the click did not go to the scrollbar, and the screen is not the
/// inventory tab. The screen closes only on a click outside the panel that
/// hit no tab.
pub proof fn lemma_action_needs_click(tab: CreativeTab, input: CreativeInput)
    ensures
        spec_creative_action(tab, input) matches CreativeAction::Place(ItemStack::Present(d), s)
            ==> input.clicked && !input.click_on_scrollbar && input.hovered_grid_item == Some(
            ItemStack::Present(d),
        ) && s == 36 + input.selected_hotbar && tab != CreativeTab::SurvivalInventory,
        spec_creative_action(tab, input) is Close ==> input.clicked && input.outside
            && !input.tab_hit,
        !input.clicked && input.layout_click is None && input.hotbar_click is None
            ==> spec_creative_action(tab, input) is Nothing,
{
}

/// Law: which click wins. On the inventory tab a click on a present stack
/// of the layout empties that slot. On the other tabs a click (not taken by
/// the scrollbar) on a present item of a tab that lists items places one of
/// it in the selected hotbar slot; without such a placement, a click on a
/// present stack of the hotbar empties that hotbar slot.
pub proof fn lemma_action_cases(tab: CreativeTab, input: CreativeInput)
    ensures
        tab == CreativeTab::SurvivalInventory && input.layout_click is Some ==> spec_creative_action(
            tab,
            input,
        ) == CreativeAction::Place(ItemStack::Empty, input.layout_click->0),
        input.hovered_grid_item matches Some(ItemStack::Present(d)) ==> (tab
            != CreativeTab::SurvivalInventory && tab != CreativeTab::Hotbar && input.clicked
            && !input.click_on_scrollbar ==> spec_creative_action(tab, input)
            == CreativeAction::Place(ItemStack::Present(d), (36 + input.selected_hotbar) as u16)),
        tab != CreativeTab::SurvivalInventory && input.hotbar_click is Some && !(
        spec_creative_action(tab, input) is Place && spec_creative_action(tab, input)->0 is Present)
            ==> spec_creative_action(tab, input) == CreativeAction::Place(
            ItemStack::Empty,
            input.hotbar_click->0,
        ),
{
}

/// The inventory slots of the cells of the inventory tab, in the order they
/// are drawn and tested: the four armor slots, the offhand, the 27 main
/// slots, then the nine hotbar slots.
pub open spec fn layout_slot_numbers() -> Seq<u16> {
    Seq::new(4, |i: int| (5 + i) as u16) + seq![45u16] + Seq::new(27, |i: int| (9 + i) as u16)
        + Seq::new(9, |i: int| (36 + i) as u16)
}

/// The inventory slots of the cells of the inventory tab, in order.
pub fn layout_slots() -> (v: Vec<u16>)
    ensures
        v@ == layout_slot_numbers(),
{
    let mut v: Vec<u16> = Vec::new();
    for i in 0..4u16
        invariant
            v@ == Seq::new(i as nat, |k: int| (5 + k) as u16),
    {
        v.push(5 + i);
        assert(v@ =~= Seq::new((i + 1) as nat, |k: int| (5 + k) as u16));
    }
    v.push(45);
    let ghost head = v@;
    for i in 0..27u16
        invariant
            v@ == head + Seq::new(i as nat, |k: int| (9 + k) as u16),
    {
        v.push(9 + i);
        assert(v@ =~= head + Seq::new((i + 1) as nat, |k: int| (9 + k) as u16));
    }
    let ghost mid = v@;
    for i in 0..9u16
        invariant
            v@ == mid + Seq::new(i as nat, |k: int| (36 + k) as u16),
    {
        v.push(36 + i);
        assert(v@ =~= mid + Seq::new((i + 1) as nat, |k: int| (36 + k) as u16));
    }
    assert(v@ =~= layout_slot_numbers());
    v
}

/// The slot of the first cell, in the order of `slots`, that the cursor is
/// over while a click lands on a present stack; `hovered` says for each cell
/// whether the cursor is over it.
pub open spec fn clicked_slot(
    inv: Seq<ItemStack>,
    slots: Seq<u16>,
    hovered: Seq<bool>,
    clicked: bool,
) -> Option<u16>
    decreases slots.len(),
{
    if slots.len() == 0 || hovered.len() == 0 {
        None
    } else if clicked && hovered[0] && slot_at(inv, slots[0] as int) is Present {
        Some(slots[0])
    } else {
        clicked_slot(inv, slots.drop_first(), hovered.drop_first(), clicked)
    }
}

/// The slot of the first cell of `slots` clicked on a present stack.
fn first_clicked(inventory: &Inventory, slots: &Vec<u16>, hovered: &Vec<bool>, clicked: bool) -> (r:
    Option<u16>)
    ensures
        r == clicked_slot(inventory@, slots@, hovered@, clicked),
{
    let n = if hovered.len() < slots.len() {
        hovered.len()
    } else {
        slots.len()
    };
    let mut i: usize = 0;
    assert(slots@.skip(0) =~= slots@);
    assert(hovered@.skip(0) =~= hovered@);
    while i < n
        invariant
            n <= hovered@.len(),
            n <= slots@.len(),
            n == hovered@.len() || n == slots@.len(),
            i <= n,
            clicked_slot(inventory@, slots@, hovered@, clicked) == clicked_slot(
                inventory@,
                slots@.skip(i as int),
                hovered@.skip(i as int),
                clicked,
            ),
        decreases n - i,
    {
        assert(slots@.skip(i as int).drop_first() =~= slots@.skip(i + 1));
        assert(hovered@.skip(i as int).drop_first() =~= hovered@.skip(i + 1));
        if clicked && hovered[i] {
            if let ItemStack::Present(_) = inventory.slot(slots[i] as usize) {
                return Some(slots[i]);
            }
        }
        i = i + 1;
    }
    None
}

/// The inventory slot a click on the inventory tab empties: the first cell,
/// in the order of `layout_slot_numbers`, that the cursor is over while a
/// click lands on a present stack.
pub fn layout_click(inventory: &Inventory, hovered: &Vec<bool>, clicked: bool) -> (r: Option<u16>)
    ensures
        r == clicked_slot(inventory@, layout_slot_numbers(), hovered@, clicked),
{
    let slots = layout_slots();
    first_clicked(inventory, &slots, hovered, clicked)
}

/// The nine hotbar slots, left to right.
pub open spec fn hotbar_slot_numbers() -> Seq<u16> {
    Seq::new(9, |i: int| (36 + i) as u16)
}

/// The hotbar slot a click below the item grid empties: the first hotbar
/// cell the cursor is over while a click lands on a present stack.
pub fn hotbar_click(inventory: &Inventory, hovered: &Vec<bool>, clicked: bool) -> (r: Option<u16>)
    ensures
        r == clicked_slot(inventory@, hotbar_slot_numbers(), hovered@, clicked),
{
    let mut slots: Vec<u16> = Vec::new();
    for i in 0..9u16
        invariant
            slots@ == Seq::new(i as nat, |k: int| (36 + k) as u16),
    {
        slots.push(36 + i);
        assert(slots@ =~= Seq::new((i + 1) as nat, |k: int| (36 + k) as u16));
    }
    assert(slots@ =~= hotbar_slot_numbers());
    first_clicked(inventory, &slots, hovered, clicked)
}

/// Law: a click reported on a cell names a slot of that layout that holds a
/// present stack, and no click is reported without a click.
pub proof fn lemma_clicked_slot_is_present(
    inv: Seq<ItemStack>,
    slots: Seq<u16>,
    hovered: Seq<bool>,
    clicked: bool,
)
    ensures
        clicked_slot(inv, slots, hovered, clicked) matches Some(s) ==> slots.contains(s) && slot_at(
            inv,
            s as int,
        ) is Present && clicked,
        !clicked ==> clicked_slot(inv, slots, hovered, clicked) is None,
    decreases slots.len(),
{
    if slots.len() > 0 && hovered.len() > 0 {
        lemma_clicked_slot_is_present(inv, slots.drop_first(), hovered.drop_first(), clicked);
        if let Some(s) = clicked_slot(inv, slots.drop_first(), hovered.drop_first(), clicked) {
            let k = choose|k: int| 0 <= k < slots.drop_first().len() && slots.drop_first()[k] == s;
            assert(slots[k + 1] == s);
        }
        assert(slots[0] == slots[0]);
    }
}

/// The first tab, in the order of `tabs`, whose flag in `hits` is set.
pub open spec fn first_tab(tabs: Seq<CreativeTab>, hits: Seq<bool>) -> Option<CreativeTab>
    decreases tabs.len(),
{
    if tabs.len() == 0 || hits.len() == 0 {
        None
    } else if hits[0] {
        Some(tabs[0])
    } else {
        first_tab(tabs.drop_first(), hits.drop_first())
    }
}

/// The first tab of `tabs` whose flag in `hits` is set.
fn first_tab_of(tabs: &Vec<CreativeTab>, hits: &Vec<bool>) -> (r: Option<CreativeTab>)
    ensures
        r == first_tab(tabs@, hits@),
{
    let n = if hits.len() < tabs.len() {
        hits.len()
    } else {
        tabs.len()
    };
    let mut i: usize = 0;
    assert(tabs@.skip(0) =~= tabs@);
    assert(hits@.skip(0) =~= hits@);
    while i < n
        invariant
            n <= hits@.len(),
            n <= tabs@.len(),
            n == hits@.len() || n == tabs@.len(),
            i <= n,
            first_tab(tabs@, hits@) == first_tab(tabs@.skip(i as int), hits@.skip(i as int)),
        decreases n - i,
    {
        assert(tabs@.skip(i as int).drop_first() =~= tabs@.skip(i + 1));
        assert(hits@.skip(i as int).drop_first() =~= hits@.skip(i + 1));
        if hits[i] {
            return Some(tabs[i]);
        }
        i = i + 1;
    }
    None
}

/// The tab a click selects: none without a click, else the first shown tab
/// whose hit area the cursor is in; `in_hit_area` gives that for each tab of
/// `shown_tabs`.
pub fn tab_hit(clicked: bool, in_hit_area: &Vec<bool>) -> (r: Option<CreativeTab>)
    ensures
        r == if clicked {
            first_tab(shown_tabs(), in_hit_area@)
        } else {
            None
        },
{
    if !clicked {
        return None;
    }
    let tabs = tabs();
    first_tab_of(&tabs, in_hit_area)
}

/// The title a tab tooltip shows: that of the first shown tab whose inset
/// the cursor is in; `in_inset` gives that for each tab of `shown_tabs`.
pub fn tab_tooltip(in_inset: &Vec<bool>) -> (r: Option<&'static str>)
    ensures
        match first_tab(shown_tabs(), in_inset@) {
            Some(t) => r is Some && r->0@ == tab_title(t),
            None => r is None,
        },
{
    let tabs = tabs();
    match first_tab_of(&tabs, in_inset) {
        Some(t) => Some(t.meta().title),
        None => None,
    }
}

/// The scrollbar drag after a frame, and whether the frame's click went to
/// the scrollbar: a click on the scrollbar starts a drag, which lasts while
/// the button is held.
pub fn scroll_drag(dragging: bool, clicked: bool, on_scrollbar: bool, mouse_held: bool) -> (r: (
    bool,
    bool,
))
    ensures
        r.0 == ((dragging || (clicked && on_scrollbar)) && mouse_held),
        r.1 == (clicked && on_scrollbar),
{
    let consumed = clicked && on_scrollbar;
    let mut now = dragging;
    if consumed {
        now = true;
    }
    if !mouse_held {
        now = false;
    }
    (now, consumed)
}

/// The stacks of the 45 grid cells, row by row, when the grid is scrolled
/// down by `scroll_rows` rows: the tab's item at the cell's index, empty past
/// the end.
pub fn grid_cells(items: &Vec<ItemStack>, scroll_rows: usize) -> (r: Vec<ItemStack>)
    requires
        scroll_rows * GRID_COLS + GRID_ROWS * GRID_COLS <= usize::MAX,
    ensures
        r@.len() == GRID_ROWS * GRID_COLS,
        forall|row: int, col: int|
            0 <= row < GRID_ROWS && 0 <= col < GRID_COLS ==> #[trigger] r@[row * GRID_COLS + col]
                == slot_at(items@, spec_grid_item_index(scroll_rows as int, row, col)),
{
    let mut r: Vec<ItemStack> = Vec::new();
    let base = scroll_rows * GRID_COLS;
    for k in 0..GRID_ROWS * GRID_COLS
        invariant
            base == scroll_rows * GRID_COLS,
            base + GRID_ROWS * GRID_COLS <= usize::MAX,
            r@.len() == k,
            forall|j: int| 0 <= j < k ==> #[trigger] r@[j] == slot_at(items@, base + j),
    {
        let idx = base + k;
        let item = if idx < items.len() {
            items[idx]
        } else {
            ItemStack::Empty
        };
        r.push(item);
    }
    assert forall|row: int, col: int|
        0 <= row < GRID_ROWS && 0 <= col < GRID_COLS implies #[trigger] r@[row * GRID_COLS + col]
        == slot_at(items@, spec_grid_item_index(scroll_rows as int, row, col)) by {
        assert(0 <= row * GRID_COLS + col < GRID_ROWS * GRID_COLS) by (nonlinear_arith)
            requires
                0 <= row < GRID_ROWS,
                0 <= col < GRID_COLS,
        ;
    }
    r
}

/// The position of a fixed list in the table of lists the caller supplies.
pub open spec fn list_index(l: ItemList) -> int {
    match l {
        ItemList::BuildingBlocks => 0,
        ItemList::ColoredBlocks => 1,
        ItemList::NaturalBlocks => 2,
        ItemList::FunctionalBlocks => 3,
        ItemList::RedstoneBlocks => 4,
        ItemList::ToolsAndUtilities => 5,
        ItemList::Combat => 6,
        ItemList::FoodAndDrinks => 7,
        ItemList::Ingredients => 8,
        ItemList::SpawnEggs => 9,
        ItemList::OpBlocks => 10,
    }
}

/// The number of fixed lists.
pub const ITEM_LIST_COUNT: usize = 11;

/// The position of a fixed list in the table of lists.
pub fn item_list_index(l: ItemList) -> (i: usize)
    ensures
        i == list_index(l),
        i < ITEM_LIST_COUNT,
{
    match l {
        ItemList::BuildingBlocks => 0,
        ItemList::ColoredBlocks => 1,
        ItemList::NaturalBlocks => 2,
        ItemList::FunctionalBlocks => 3,
        ItemList::RedstoneBlocks => 4,
        ItemList::ToolsAndUtilities => 5,
        ItemList::Combat => 6,
        ItemList::FoodAndDrinks => 7,
        ItemList::Ingredients => 8,
        ItemList::SpawnEggs => 9,
        ItemList::OpBlocks => 10,
    }
}

/// The views of a table of item lists.
pub open spec fn lists_view(lists: Seq<Vec<u32>>) -> Seq<Seq<u32>> {
    lists.map_values(|l: Vec<u32>| l@)
}

/// The items of the fixed lists of the first `n` shown tabs, in order.
pub open spec fn static_items(lists: Seq<Seq<u32>>, n: int) -> Seq<u32>
    decreases n,
{
    if n <= 0 {
        Seq::empty()
    } else {
        static_items(lists, n - 1) + match tab_items(shown_tabs()[n - 1]) {
            ItemSource::Static(l) => lists[list_index(l)],
            _ => Seq::empty(),
        }
    }
}

/// `s` with every item after its first occurrence removed.
pub open spec fn dedup(s: Seq<u32>) -> Seq<u32>
    decreases s.len(),
{
    if s.len() == 0 {
        s
    } else {
        let d = dedup(s.drop_last());
        if d.contains(s.last()) {
            d
        } else {
            d.push(s.last())
        }
    }
}

/// The items the search tab searches: every item of the shown tabs' fixed
/// lists, once, in the order the tabs and lists give.
pub open spec fn search_order(lists: Seq<Seq<u32>>) -> Seq<u32> {
    dedup(static_items(lists, shown_tabs().len() as int))
}

fn contains_u32(v: &Vec<u32>, x: u32) -> (r: bool)
    ensures
        r == v@.contains(x),
{
    for i in 0..v.len()
        invariant
            forall|j: int| 0 <= j < i ==> v@[j] != x,
    {
        if v[i] == x {
            return true;
        }
    }
    false
}

/// The items the search tab searches, each once.
pub fn search_items(lists: &Vec<Vec<u32>>) -> (r: Vec<u32>)
    requires
        lists@.len() == ITEM_LIST_COUNT,
    ensures
        r@ == search_order(lists_view(lists@)),
{
    let ghost lv = lists_view(lists@);
    let shown = tabs();
    let mut out: Vec<u32> = Vec::new();
    for t in 0..shown.len()
        invariant
            lists@.len() == ITEM_LIST_COUNT,
            lv == lists_view(lists@),
            shown@ == shown_tabs(),
            out@ == dedup(static_items(lv, t as int)),
    {
        let ghost before_all = static_items(lv, t as int);
        if let ItemSource::Static(l) = shown[t].meta().items {
            let list = &lists[item_list_index(l)];
            assert(list@ == lv[list_index(l)]);
            for k in 0..list.len()
                invariant
                    out@ == dedup(before_all + list@.take(k as int)),
            {
                let ghost all = before_all + list@.take(k as int);
                assert((before_all + list@.take(k + 1)).drop_last() =~= all);
                assert((before_all + list@.take(k + 1)).last() == list@[k as int]);
                let x = list[k];
                if !contains_u32(&out, x) {
                    out.push(x);
                }
            }
            assert(list@.take(list@.len() as int) =~= list@);
        } else {
            assert(before_all + Seq::<u32>::empty() =~= before_all);
        }
    }
    out
}

proof fn lemma_contains_drop_last(s: Seq<u32>, x: u32)
    requires
        s.len() > 0,
    ensures
        s.contains(x) <==> (s.drop_last().contains(x) || s.last() == x),
{
    if s.contains(x) {
        let i = choose|i: int| 0 <= i < s.len() && s[i] == x;
        if i < s.len() - 1 {
            assert(s.drop_last()[i] == x);
        }
    }
    if s.drop_last().contains(x) {
        let i = choose|i: int| 0 <= i < s.drop_last().len() && s.drop_last()[i] == x;
        assert(s[i] == x);
    }
    if s.last() == x {
        assert(s[s.len() - 1] == x);
    }
}

/// Law: the search order holds every item of the fixed lists, each exactly
/// once.
pub proof fn lemma_dedup_once(s: Seq<u32>)
    ensures
        forall|x: u32| dedup(s).contains(x) <==> s.contains(x),
        forall|i: int, j: int| 0 <= i < j < dedup(s).len() ==> dedup(s)[i] != dedup(s)[j],
    decreases s.len(),
{
    if s.len() > 0 {
        lemma_dedup_once(s.drop_last());
        let d = dedup(s.drop_last());
        assert forall|x: u32| dedup(s).contains(x) <==> s.contains(x) by {
            lemma_contains_drop_last(s, x);
            if !d.contains(s.last()) {
                lemma_contains_drop_last(d.push(s.last()), x);
                assert(d.push(s.last()).drop_last() =~= d);
            }
        }
    }
}

/// How many times `x` occurs in `s`.
pub open spec fn count_of(s: Seq<u32>, x: u32) -> nat
    decreases s.len(),
{
    if s.len() == 0 {
        0
    } else {
        count_of(s.drop_last(), x) + if s.last() == x {
            1nat
        } else {
            0nat
        }
    }
}

/// For each shown tab with a fixed list, its title once for each time `kind`
/// occurs in that list, in tab order.
pub open spec fn titles_containing(kind: u32, lists: Seq<Seq<u32>>, n: int) -> Seq<Seq<char>>
    decreases n,
{
    if n <= 0 {
        Seq::empty()
    } else {
        let tab = shown_tabs()[n - 1];
        titles_containing(kind, lists, n - 1) + match tab_items(tab) {
            ItemSource::Static(l) => Seq::new(
                count_of(lists[list_index(l)], kind),
                |i: int| tab_title(tab),
            ),
            _ => Seq::empty(),
        }
    }
}

/// The titles of the tabs whose lists hold `kind`, as the tooltip lists them.
pub fn tabs_containing(kind: u32, lists: &Vec<Vec<u32>>) -> (r: Vec<&'static str>)
    requires
        lists@.len() == ITEM_LIST_COUNT,
    ensures
        r@.map_values(|t: &str| t@) == titles_containing(
            kind,
            lists_view(lists@),
            shown_tabs().len() as int,
        ),
{
    let ghost lv = lists_view(lists@);
    let shown = tabs();
    let mut out: Vec<&'static str> = Vec::new();
    for t in 0..shown.len()
        invariant
            lists@.len() == ITEM_LIST_COUNT,
            lv == lists_view(lists@),
            shown@ == shown_tabs(),
            out@.map_values(|s: &str| s@) == titles_containing(kind, lv, t as int),
    {
        let ghost before = out@.map_values(|s: &str| s@);
        let meta = shown[t].meta();
        if let ItemSource::Static(l) = meta.items {
            let list = &lists[item_list_index(l)];
            assert(list@ == lv[list_index(l)]);
            for k in 0..list.len()
                invariant
                    out@.map_values(|s: &str| s@) == before + Seq::new(
                        count_of(list@.take(k as int), kind),
                        |i: int| meta.title@,
                    ),
            {
                let ghost prev = out@.map_values(|s: &str| s@);
                assert(list@.take(k + 1).drop_last() =~= list@.take(k as int));
                if list[k] == kind {
                    out.push(meta.title);
                    assert(out@.map_values(|s: &str| s@) =~= prev.push(meta.title@));
                }
                assert(out@.map_values(|s: &str| s@) =~= before + Seq::new(
                    count_of(list@.take(k + 1), kind),
                    |i: int| meta.title@,
                ));
            }
            assert(list@.take(list@.len() as int) =~= list@);
            assert(shown@[t as int] == shown_tabs()[t as int]);
            assert(tab_title(shown_tabs()[t as int]) == meta.title@);
            assert(out@.map_values(|s: &str| s@) =~= titles_containing(kind, lv, t + 1));
        } else {
            assert(out@.map_values(|s: &str| s@) =~= titles_containing(kind, lv, t + 1));
        }
    }
    out
}

/// A stack of one `kind` with no components.
pub open spec fn spec_stack_of(kind: u32) -> ItemStack {
    ItemStack::Present(ItemStackData { kind, count: 1, damage: None, max_damage: None })
}

/// A stack of one `kind` with no components.
pub fn stack_of(kind: u32) -> (s: ItemStack)
    ensures
        s == spec_stack_of(kind),
{
    ItemStack::Present(ItemStackData { kind, count: 1, damage: None, max_damage: None })
}

/// The lower-case form of a text, as Unicode defines it.
pub uninterp spec fn str_lowercase(s: Seq<char>) -> Seq<char>;

/// `str::to_lowercase`.
#[verifier::external_body]
fn to_lowercase(s: &str) -> (r: String)
    ensures
        r@ == str_lowercase(s@),
{
    s.to_lowercase()
}

/// `needle` occurs in `hay`.
pub open spec fn occurs_in(needle: Seq<char>, hay: Seq<char>) -> bool {
    exists|i: int| 0 <= i <= hay.len() - needle.len() && #[trigger] hay.subrange(i, i + needle.len()) == needle
}

fn occurs_at(needle: &Vec<char>, hay: &Vec<char>, i: usize) -> (r: bool)
    requires
        i + needle@.len() <= hay@.len(),
    ensures
        r == (hay@.subrange(i as int, i + needle@.len()) == needle@),
{
    let n = needle.len();
    let hl = hay.len();
    let mut j: usize = 0;
    while j < n
        invariant
            n == needle@.len(),
            hl == hay@.len(),
            i + n <= hay@.len(),
            j <= n,
            forall|k: int| 0 <= k < j ==> hay@[i + k] == needle@[k],
        decreases n - j,
    {
        if hay[i + j] != needle[j] {
            assert(hay@.subrange(i as int, i + n)[j as int] != needle@[j as int]);
            return false;
        }
        j = j + 1;
    }
    assert(hay@.subrange(i as int, i + n) =~= needle@);
    true
}

/// Whether `needle` occurs in `hay`.
pub fn occurs(needle: &Vec<char>, hay: &Vec<char>) -> (r: bool)
    ensures
        r == occurs_in(needle@, hay@),
{
    if needle.len() == 0 {
        assert(hay@.subrange(0, 0 + needle@.len() as int) =~= needle@);
        return true;
    }
    if needle.len() > hay.len() {
        return false;
    }
    let last = hay.len() - needle.len();
    assert(last < usize::MAX);
    let mut i: usize = 0;
    while i <= last
        invariant
            last == hay@.len() - needle@.len(),
            last < usize::MAX,
            i <= last + 1,
            forall|k: int| 0 <= k < i ==> #[trigger] hay@.subrange(k, k + needle@.len()) != needle@,
        decreases last + 1 - i,
    {
        if occurs_at(needle, hay, i) {
            return true;
        }
        i = i + 1;
    }
    false
}

/// The search text as it is matched: in lower case, without a leading `#`.
pub open spec fn search_needle(search: Seq<char>) -> Seq<char> {
    let raw = str_lowercase(search);
    if raw.len() > 0 && raw[0] == '#' {
        raw.drop_first()
    } else {
        raw
    }
}

/// The items of `items` that the search matches: all of them for an empty
/// needle, else those whose lower-case registry name contains it.
pub open spec fn search_matches(items: Seq<u32>, names: Seq<Seq<char>>, needle: Seq<char>) -> Seq<u32>
    decreases items.len(),
{
    if items.len() == 0 {
        items
    } else {
        let rest = search_matches(items.drop_last(), names, needle);
        let k = items.last();
        if needle.len() == 0 || occurs_in(needle, str_lowercase(names[k as int])) {
            rest.push(k)
        } else {
            rest
        }
    }
}

/// The items a tab shows: its fixed list, the search results, or none.
pub open spec fn spec_visible_items(
    tab: CreativeTab,
    search: Seq<char>,
    lists: Seq<Seq<u32>>,
    names: Seq<Seq<char>>,
) -> Seq<ItemStack> {
    match tab_items(tab) {
        ItemSource::Static(l) => lists[list_index(l)].map_values(|k: u32| spec_stack_of(k)),
        ItemSource::Search => search_matches(search_order(lists), names, search_needle(search)).map_values(
            |k: u32| spec_stack_of(k),
        ),
        ItemSource::Empty => Seq::empty(),
    }
}

fn stacks_of(kinds: &Vec<u32>) -> (r: Vec<ItemStack>)
    ensures
        r@ == kinds@.map_values(|k: u32| spec_stack_of(k)),
{
    let mut out: Vec<ItemStack> = Vec::new();
    for i in 0..kinds.len()
        invariant
            out@ == kinds@.take(i as int).map_values(|k: u32| spec_stack_of(k)),
    {
        out.push(stack_of(kinds[i]));
        assert(out@ =~= kinds@.take(i + 1).map_values(|k: u32| spec_stack_of(k)));
    }
    assert(kinds@.take(kinds@.len() as int) =~= kinds@);
    out
}

/// The items a tab shows, as stacks of one. `lists` holds the fixed lists in
/// the order of `list_index`, `names` the registry name of every item,
/// indexed by item number.
pub fn visible_items(tab: CreativeTab, search: &str, lists: &Vec<Vec<u32>>, names: &Vec<String>) -> (r:
    Vec<ItemStack>)
    requires
        lists@.len() == ITEM_LIST_COUNT,
        forall|i: int, j: int|
            0 <= i < lists@.len() && 0 <= j < lists@[i]@.len() ==> lists@[i]@[j] < names@.len(),
    ensures
        r@ == spec_visible_items(tab, search@, lists_view(lists@), strings_view(names@)),
{
    match tab.meta().items {
        ItemSource::Static(l) => stacks_of(&lists[item_list_index(l)]),
        ItemSource::Search => {
            let ghost nv = strings_view(names@);
            let raw = chars_of(to_lowercase(search).as_str());
            let needle: Vec<char> = if raw.len() > 0 && raw[0] == '#' {
                let mut v: Vec<char> = Vec::new();
                for i in 1..raw.len()
                    invariant
                        v@ == raw@.subrange(1, i as int),
                {
                    v.push(raw[i]);
                    assert(v@ =~= raw@.subrange(1, i + 1));
                }
                assert(raw@.subrange(1, raw@.len() as int) =~= raw@.drop_first());
                v
            } else {
                raw
            };
            assert(needle@ == search_needle(search@));
            let items = search_items(lists);
            proof {
                lemma_search_order_in(lists_view(lists@), names@.len());
            }
            let mut kept: Vec<u32> = Vec::new();
            for i in 0..items.len()
                invariant
                    nv == strings_view(names@),
                    items@ == search_order(lists_view(lists@)),
                    forall|j: int| 0 <= j < items@.len() ==> items@[j] < names@.len(),
                    kept@ == search_matches(items@.take(i as int), nv, needle@),
            {
                assert(items@.take(i + 1).drop_last() =~= items@.take(i as int));
                let k = items[i];
                let keep = if needle.len() == 0 {
                    true
                } else {
                    let name = chars_of(to_lowercase(names[k as usize].as_str()).as_str());
                    occurs(&needle, &name)
                };
                if keep {
                    kept.push(k);
                }
            }
            assert(items@.take(items@.len() as int) =~= items@);
            stacks_of(&kept)
        },
        ItemSource::Empty => Vec::new(),
    }
}

proof fn lemma_static_items_in(lists: Seq<Seq<u32>>, n: int, bound: nat)
    requires
        lists.len() == ITEM_LIST_COUNT,
        forall|i: int, j: int| 0 <= i < lists.len() && 0 <= j < lists[i].len() ==> lists[i][j] < bound,
        n <= shown_tabs().len(),
    ensures
        forall|j: int| 0 <= j < static_items(lists, n).len() ==> static_items(lists, n)[j] < bound,
    decreases n,
{
    if n > 0 {
        lemma_static_items_in(lists, n - 1, bound);
        let prev = static_items(lists, n - 1);
        let tab = shown_tabs()[n - 1];
        match tab_items(tab) {
            ItemSource::Static(l) => {
                let extra = lists[list_index(l)];
                assert(static_items(lists, n) == prev + extra);
                assert forall|j: int| 0 <= j < (prev + extra).len() implies (prev + extra)[j] < bound by {
                    if j >= prev.len() {
                        assert((prev + extra)[j] == extra[j - prev.len()]);
                    }
                }
            },
            _ => {
                assert(static_items(lists, n) =~= prev);
            },
        }
    }
}

proof fn lemma_dedup_in(s: Seq<u32>, bound: nat)
    requires
        forall|j: int| 0 <= j < s.len() ==> s[j] < bound,
    ensures
        forall|j: int| 0 <= j < dedup(s).len() ==> dedup(s)[j] < bound,
    decreases s.len(),
{
    if s.len() > 0 {
        lemma_dedup_in(s.drop_last(), bound);
        let d = dedup(s.drop_last());
        assert(s[s.len() - 1] < bound);
        if !d.contains(s.last()) {
            assert forall|j: int| 0 <= j < d.push(s.last()).len() implies d.push(s.last())[j] < bound by {
                if j < d.len() {
                    assert(d.push(s.last())[j] == d[j]);
                }
            }
        }
    }
}

proof fn lemma_search_order_in(lists: Seq<Seq<u32>>, bound: nat)
    requires
        lists.len() == ITEM_LIST_COUNT,
        forall|i: int, j: int| 0 <= i < lists.len() && 0 <= j < lists[i].len() ==> lists[i][j] < bound,
    ensures
        forall|j: int| 0 <= j < search_order(lists).len() ==> search_order(lists)[j] < bound,
{
    lemma_static_items_in(lists, shown_tabs().len() as int, bound);
    lemma_dedup_in(static_items(lists, shown_tabs().len() as int), bound);
}

} // verus!
