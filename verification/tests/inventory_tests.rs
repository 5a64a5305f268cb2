use pomme::inventory::{item_display_name, Inventory, ItemStack, ItemStackData};
use pomme::inventory_screen::{count_label, screen_slots};
use pomme::sprites::SpriteId;

fn stack(kind: u32, count: i32) -> ItemStack {
    ItemStack::Present(ItemStackData { kind, count, damage: None, max_damage: None })
}

#[test]
fn new_inventory_is_46_empty_slots() {
    let inv = Inventory::new();
    for i in 0..46 {
        assert_eq!(*inv.slot(i), ItemStack::Empty);
    }
    assert_eq!(inv.main_slots().len(), 27);
    assert_eq!(inv.hotbar_slots().len(), 9);
    assert_eq!(inv.armor_slots().len(), 4);
    assert_eq!(inv.craft_input_slots().len(), 4);
}

#[test]
fn set_slot_then_read_back() {
    let mut inv = Inventory::new();
    inv.set_slot(36, stack(7, 3));
    assert_eq!(*inv.slot(36), stack(7, 3));
    assert_eq!(inv.hotbar_slots()[0], stack(7, 3));
    assert_eq!(*inv.slot(37), ItemStack::Empty);
}

#[test]
fn set_slot_outside_changes_nothing() {
    let mut inv = Inventory::new();
    inv.set_slot(46, stack(1, 1));
    inv.set_slot(1000, stack(1, 1));
    for i in 0..46 {
        assert_eq!(*inv.slot(i), ItemStack::Empty);
    }
}

#[test]
fn slot_outside_reads_empty() {
    let mut inv = Inventory::new();
    inv.set_contents(vec![stack(1, 1); 60]);
    assert_eq!(*inv.slot(45), stack(1, 1));
    assert_eq!(*inv.slot(46), ItemStack::Empty);
    assert_eq!(*inv.slot(usize::MAX), ItemStack::Empty);
}

#[test]
fn set_contents_pads_with_empty() {
    let mut inv = Inventory::new();
    inv.set_contents(vec![stack(1, 1), stack(2, 2), stack(3, 3)]);
    assert_eq!(*inv.craft_output(), stack(1, 1));
    assert_eq!(inv.craft_input_slots()[0], stack(2, 2));
    assert_eq!(inv.craft_input_slots()[1], stack(3, 3));
    assert_eq!(inv.craft_input_slots()[2], ItemStack::Empty);
    assert_eq!(*inv.offhand(), ItemStack::Empty);
}

#[test]
fn set_contents_cuts_after_46() {
    let mut inv = Inventory::new();
    let items: Vec<ItemStack> = (0..50).map(|k| stack(k, 1)).collect();
    inv.set_contents(items);
    assert_eq!(*inv.offhand(), stack(45, 1));
    assert_eq!(inv.main_slots()[0], stack(9, 1));
    assert_eq!(inv.armor_slots()[3], stack(8, 1));
    assert_eq!(inv.hotbar_slots()[8], stack(44, 1));
}

#[test]
fn display_name_capitalizes_words() {
    assert_eq!(item_display_name("diamond_sword"), "Diamond Sword");
    assert_eq!(item_display_name("stone"), "Stone");
    assert_eq!(item_display_name("light_blue_wool"), "Light Blue Wool");
}

#[test]
fn display_name_edge_cases() {
    assert_eq!(item_display_name(""), "");
    assert_eq!(item_display_name("a__b"), "A  B");
    assert_eq!(item_display_name("_x"), " X");
    assert_eq!(item_display_name("ß_tnt"), "SS Tnt");
}

#[test]
fn screen_slots_cover_the_inventory() {
    let mut inv = Inventory::new();
    let items: Vec<ItemStack> = (0..46).map(|k| stack(k, 1)).collect();
    inv.set_contents(items);
    let cells = screen_slots(&inv);
    assert_eq!(cells.len(), 46);
    let mut seen = vec![false; 46];
    for c in &cells {
        assert!(!seen[c.slot as usize]);
        seen[c.slot as usize] = true;
        assert_eq!(c.item, stack(c.slot as u32, 1));
    }
    assert!(seen.iter().all(|s| *s));
}

#[test]
fn screen_slot_positions() {
    let inv = Inventory::new();
    let cells = screen_slots(&inv);
    let first = cells[0];
    assert_eq!((first.base_x, first.base_y, first.col, first.row, first.slot), (8, 142, 0, 0, 36));
    let main_last = cells[35];
    assert_eq!((main_last.base_x, main_last.base_y, main_last.col, main_last.row, main_last.slot), (8, 84, 8, 2, 35));
    let helmet = cells[36];
    assert_eq!((helmet.base_y, helmet.slot, helmet.empty_sprite), (8, 5, Some(SpriteId::EmptyHelmet)));
    let boots = cells[39];
    assert_eq!((boots.base_y, boots.slot, boots.empty_sprite), (62, 8, Some(SpriteId::EmptyBoots)));
    let craft = cells[43];
    assert_eq!((craft.base_x, craft.base_y, craft.col, craft.row, craft.slot), (98, 18, 1, 1, 4));
    let out = cells[44];
    assert_eq!((out.base_x, out.base_y, out.slot, out.empty_sprite), (154, 28, 0, None));
    let off = cells[45];
    assert_eq!((off.base_x, off.base_y, off.slot, off.empty_sprite), (77, 62, 45, Some(SpriteId::EmptyShield)));
}

#[test]
fn count_label_only_above_one() {
    assert_eq!(count_label(&stack(1, 3)), Some("3".to_string()));
    assert_eq!(count_label(&stack(1, 64)), Some("64".to_string()));
    assert_eq!(count_label(&stack(1, 1)), None);
    assert_eq!(count_label(&stack(1, 0)), None);
    assert_eq!(count_label(&ItemStack::Empty), None);
}
