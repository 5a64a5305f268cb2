use pomme::creative::{
    caret_visible, creative_action, edit_search, grid_cells, grid_item_index, hotbar_click,
    hotbar_slot_number, layout_click, layout_slots, max_scroll_rows, roman, scroll_drag,
    search_items, select_tab, stack_of, tab_hit, tab_local_x, tab_sprite, tab_tooltip, tabs,
    tabs_containing, visible_items, CreativeAction, CreativeInput, CreativeTab,
};
use pomme::inventory::{Inventory, ItemStack, ItemStackData};
use pomme::sprites::{SpriteId, TabRow};

fn present(kind: u32) -> ItemStack {
    ItemStack::Present(ItemStackData { kind, count: 1, damage: None, max_damage: None })
}

/// Eleven fixed lists: building blocks hold 1 and 2, coloured blocks 2, 3
/// and 2 again, operator utilities 4.
fn lists() -> Vec<Vec<u32>> {
    let mut l: Vec<Vec<u32>> = vec![Vec::new(); 11];
    l[0] = vec![1, 2];
    l[1] = vec![2, 3, 2];
    l[10] = vec![4];
    l
}

fn names() -> Vec<String> {
    vec!["air".into(), "stone".into(), "oak_log".into(), "red_wool".into(), "command_block".into()]
}

#[test]
fn tab_meta_values() {
    let m = CreativeTab::Search.meta();
    assert_eq!(m.title, "Search");
    assert_eq!(m.icon, "compass");
    assert_eq!(m.col, 7);
    assert_eq!(m.row, TabRow::Top);
    let m = CreativeTab::ToolsAndUtilities.meta();
    assert_eq!(m.title, "Tools & Utilities");
    assert_eq!(m.row, TabRow::Bottom);
    assert_eq!(m.col, 1);
    assert_eq!(CreativeTab::SurvivalInventory.meta().icon, "chest");
}

#[test]
fn tab_flags() {
    assert!(CreativeTab::BuildingBlocks.scrollable());
    assert!(CreativeTab::Search.scrollable());
    assert!(!CreativeTab::SurvivalInventory.scrollable());
    assert!(!CreativeTab::Hotbar.scrollable());
    assert!(CreativeTab::SurvivalInventory.is_inventory_tab());
    assert!(!CreativeTab::SurvivalInventory.shows_title());
    assert!(CreativeTab::Combat.shows_title());
    assert!(CreativeTab::Search.captures_typing());
    assert!(!CreativeTab::Combat.captures_typing());
    assert_eq!(CreativeTab::Search.background_sprite(), SpriteId::CreativeSearchBackground);
    assert_eq!(
        CreativeTab::SurvivalInventory.background_sprite(),
        SpriteId::CreativeInventoryBackground
    );
    assert_eq!(CreativeTab::Combat.background_sprite(), SpriteId::CreativeItemsBackground);
}

#[test]
fn twelve_tabs_shown_without_hotbar_and_op() {
    let t = tabs();
    assert_eq!(t.len(), 12);
    assert!(!t.contains(&CreativeTab::Hotbar));
    assert!(!t.contains(&CreativeTab::OpBlocks));
    assert_eq!(t[5], CreativeTab::Search);
    assert_eq!(t[11], CreativeTab::SurvivalInventory);
}

#[test]
fn tab_sprite_clamps_column() {
    assert_eq!(
        tab_sprite(TabRow::Top, 9, true),
        SpriteId::CreativeTab { row: TabRow::Top, selected: true, column: 7 }
    );
    assert_eq!(
        tab_sprite(TabRow::Bottom, 0, false),
        SpriteId::CreativeTab { row: TabRow::Bottom, selected: false, column: 1 }
    );
    assert_eq!(
        tab_sprite(TabRow::Bottom, 4, false),
        SpriteId::CreativeTab { row: TabRow::Bottom, selected: false, column: 4 }
    );
}

#[test]
fn tab_positions() {
    assert_eq!(tab_local_x(1), 0);
    assert_eq!(tab_local_x(5), 108);
    assert_eq!(tab_local_x(6), 142);
    assert_eq!(tab_local_x(7), 169);
}

#[test]
fn roman_numerals() {
    assert_eq!(roman(1), "I");
    assert_eq!(roman(4), "IV");
    assert_eq!(roman(9), "IX");
    assert_eq!(roman(10), "X");
    assert_eq!(roman(0), "");
    assert_eq!(roman(11), "");
    assert_eq!(roman(-3), "");
}

#[test]
fn typing_into_search() {
    let mut s = String::from("ab");
    let restart = edit_search(CreativeTab::Search, &mut s, true, &vec!['c', '\n', 'd']);
    assert_eq!(s, "acd");
    assert!(restart);
}

#[test]
fn typing_ignored_off_search() {
    let mut s = String::from("ab");
    let restart = edit_search(CreativeTab::Combat, &mut s, true, &vec!['c']);
    assert_eq!(s, "ab");
    assert!(!restart);
}

#[test]
fn typing_stops_at_fifty_bytes() {
    let mut s = "a".repeat(49);
    let restart = edit_search(CreativeTab::Search, &mut s, false, &vec!['x', 'y']);
    assert_eq!(s, format!("{}x", "a".repeat(49)));
    assert!(restart);
    let restart = edit_search(CreativeTab::Search, &mut s, false, &vec!['z']);
    assert_eq!(s.len(), 50);
    assert!(!restart);
}

#[test]
fn typing_counts_bytes_not_chars() {
    let mut s = "é".repeat(24);
    edit_search(CreativeTab::Search, &mut s, false, &vec!['é', 'é']);
    assert_eq!(s, "é".repeat(25));
}

#[test]
fn backspace_on_empty_search_still_restarts_blink() {
    let mut s = String::new();
    let restart = edit_search(CreativeTab::Search, &mut s, true, &vec![]);
    assert_eq!(s, "");
    assert!(restart);
}

#[test]
fn caret_blinks_each_second() {
    assert!(caret_visible(0));
    assert!(caret_visible(499));
    assert!(!caret_visible(500));
    assert!(!caret_visible(999));
    assert!(caret_visible(1499));
    assert!(!caret_visible(1500));
}

#[test]
fn scroll_rows() {
    assert_eq!(max_scroll_rows(46, true), 1);
    assert_eq!(max_scroll_rows(45, true), 0);
    assert_eq!(max_scroll_rows(0, true), 0);
    assert_eq!(max_scroll_rows(100, false), 0);
    assert_eq!(max_scroll_rows(100, true), 7);
}

#[test]
fn grid_indices() {
    assert_eq!(grid_item_index(2, 1, 3), 30);
    assert_eq!(grid_item_index(0, 0, 0), 0);
    assert_eq!(hotbar_slot_number(4), 40);
    assert_eq!(hotbar_slot_number(0), 36);
}

#[test]
fn select_tab_changes_only_on_new_tab() {
    assert_eq!(select_tab(CreativeTab::BuildingBlocks, Some(CreativeTab::Combat)), (CreativeTab::Combat, true));
    assert_eq!(select_tab(CreativeTab::Combat, Some(CreativeTab::Combat)), (CreativeTab::Combat, false));
    assert_eq!(select_tab(CreativeTab::Combat, None), (CreativeTab::Combat, false));
}

fn input() -> CreativeInput {
    CreativeInput {
        clicked: false,
        click_on_scrollbar: false,
        tab_hit: false,
        outside: false,
        hovered_grid_item: None,
        layout_click: None,
        hotbar_click: None,
        selected_hotbar: 2,
    }
}

#[test]
fn action_grid_click_places_in_hotbar() {
    let mut i = input();
    i.clicked = true;
    i.hovered_grid_item = Some(present(5));
    assert_eq!(creative_action(CreativeTab::BuildingBlocks, &i), CreativeAction::Place(present(5), 38));
    i.click_on_scrollbar = true;
    assert_eq!(creative_action(CreativeTab::BuildingBlocks, &i), CreativeAction::Nothing);
}

#[test]
fn action_grid_click_on_empty_cell_does_nothing() {
    let mut i = input();
    i.clicked = true;
    i.hovered_grid_item = Some(ItemStack::Empty);
    assert_eq!(creative_action(CreativeTab::Combat, &i), CreativeAction::Nothing);
}

#[test]
fn action_hotbar_click_empties_slot() {
    let mut i = input();
    i.clicked = true;
    i.hotbar_click = Some(40);
    assert_eq!(creative_action(CreativeTab::Combat, &i), CreativeAction::Place(ItemStack::Empty, 40));
}

#[test]
fn action_inventory_tab_empties_clicked_slot() {
    let mut i = input();
    i.clicked = true;
    i.layout_click = Some(9);
    i.hovered_grid_item = Some(present(5));
    assert_eq!(
        creative_action(CreativeTab::SurvivalInventory, &i),
        CreativeAction::Place(ItemStack::Empty, 9)
    );
}

#[test]
fn action_click_outside_closes() {
    let mut i = input();
    i.clicked = true;
    i.outside = true;
    assert_eq!(creative_action(CreativeTab::Combat, &i), CreativeAction::Close);
    i.tab_hit = true;
    assert_eq!(creative_action(CreativeTab::Combat, &i), CreativeAction::Nothing);
    i.tab_hit = false;
    i.clicked = false;
    assert_eq!(creative_action(CreativeTab::Combat, &i), CreativeAction::Nothing);
}

#[test]
fn layout_order() {
    let s = layout_slots();
    assert_eq!(s.len(), 41);
    assert_eq!(&s[0..5], &[5, 6, 7, 8, 45]);
    assert_eq!(s[5], 9);
    assert_eq!(s[31], 35);
    assert_eq!(s[32], 36);
    assert_eq!(s[40], 44);
}

#[test]
fn layout_click_needs_present_stack_and_click() {
    let mut inv = Inventory::new();
    inv.set_slot(10, present(3));
    let mut hovered = vec![false; 41];
    hovered[6] = true;
    assert_eq!(layout_click(&inv, &hovered, true), Some(10));
    assert_eq!(layout_click(&inv, &hovered, false), None);
    let mut hovered2 = vec![false; 41];
    hovered2[7] = true;
    assert_eq!(layout_click(&inv, &hovered2, true), None);
}

#[test]
fn hotbar_click_reports_hotbar_slot() {
    let mut inv = Inventory::new();
    inv.set_slot(38, present(3));
    let mut hovered = vec![false; 9];
    hovered[2] = true;
    assert_eq!(hotbar_click(&inv, &hovered, true), Some(38));
    hovered[2] = false;
    hovered[3] = true;
    assert_eq!(hotbar_click(&inv, &hovered, true), None);
}

#[test]
fn tab_hit_first_in_order() {
    let mut hits = vec![false; 12];
    hits[7] = true;
    hits[9] = true;
    assert_eq!(tab_hit(true, &hits), Some(CreativeTab::Combat));
    assert_eq!(tab_hit(false, &hits), None);
    assert_eq!(tab_hit(true, &vec![false; 12]), None);
}

#[test]
fn tab_tooltip_names_tab() {
    let mut hits = vec![false; 12];
    hits[5] = true;
    assert_eq!(tab_tooltip(&hits), Some("Search"));
    assert_eq!(tab_tooltip(&vec![false; 12]), None);
}

#[test]
fn scrollbar_drag() {
    assert_eq!(scroll_drag(false, true, true, true), (true, true));
    assert_eq!(scroll_drag(true, false, false, true), (true, false));
    assert_eq!(scroll_drag(true, false, false, false), (false, false));
    assert_eq!(scroll_drag(false, true, false, true), (false, false));
    assert_eq!(scroll_drag(false, true, true, false), (false, true));
}

#[test]
fn grid_cells_fill_with_empty() {
    let items = vec![present(1), present(2), present(3)];
    let cells = grid_cells(&items, 0);
    assert_eq!(cells.len(), 45);
    assert_eq!(cells[0], present(1));
    assert_eq!(cells[2], present(3));
    assert_eq!(cells[3], ItemStack::Empty);
    let many: Vec<ItemStack> = (0..12).map(present).collect();
    let cells = grid_cells(&many, 1);
    assert_eq!(cells[0], present(9));
    assert_eq!(cells[2], present(11));
    assert_eq!(cells[3], ItemStack::Empty);
}

#[test]
fn search_items_once_each_from_shown_tabs() {
    assert_eq!(search_items(&lists()), vec![1, 2, 3]);
}

#[test]
fn tabs_containing_lists_titles() {
    assert_eq!(tabs_containing(2, &lists()), vec!["Building Blocks", "Colored Blocks", "Colored Blocks"]);
    assert_eq!(tabs_containing(4, &lists()), Vec::<&str>::new());
    assert_eq!(tabs_containing(3, &lists()), vec!["Colored Blocks"]);
}

#[test]
fn stack_of_one() {
    assert_eq!(stack_of(9), present(9));
}

#[test]
fn visible_items_of_tabs() {
    let l = lists();
    let n = names();
    assert_eq!(visible_items(CreativeTab::BuildingBlocks, "", &l, &n), vec![present(1), present(2)]);
    assert_eq!(visible_items(CreativeTab::SurvivalInventory, "", &l, &n), vec![]);
    assert_eq!(visible_items(CreativeTab::Hotbar, "", &l, &n), vec![]);
    assert_eq!(
        visible_items(CreativeTab::Search, "", &l, &n),
        vec![present(1), present(2), present(3)]
    );
}

#[test]
fn search_matches_lowercased_and_hash() {
    let l = lists();
    let n = names();
    assert_eq!(visible_items(CreativeTab::Search, "WOOL", &l, &n), vec![present(3)]);
    assert_eq!(visible_items(CreativeTab::Search, "#o", &l, &n), vec![present(1), present(2), present(3)]);
    assert_eq!(visible_items(CreativeTab::Search, "#", &l, &n), vec![present(1), present(2), present(3)]);
    assert_eq!(visible_items(CreativeTab::Search, "log", &l, &n), vec![present(2)]);
    assert_eq!(visible_items(CreativeTab::Search, "zzz", &l, &n), vec![]);
}

#[test]
fn shown_tabs_have_distinct_places() {
    let t = tabs();
    for i in 0..t.len() {
        for j in (i + 1)..t.len() {
            let (a, b) = (t[i].meta(), t[j].meta());
            assert!(a.row != b.row || a.col != b.col, "{i} {j}");
        }
    }
}

#[test]
fn search_text_stays_short() {
    let mut s = String::new();
    let typed: Vec<char> = std::iter::repeat('😀').take(30).collect();
    edit_search(CreativeTab::Search, &mut s, false, &typed);
    assert_eq!(s.len(), 52);
    assert!(s.len() <= 53);
}
