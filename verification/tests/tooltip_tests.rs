use pomme::inventory::ItemStackData;
use pomme::tooltip::{
    build_item_tooltip_lines, decimal_string, lore_lines, rarity_color, rgb_channels,
    total_component_count, Rarity, TooltipItem, TooltipLine,
};

fn pairs(lines: &[TooltipLine]) -> Vec<(String, u32)> {
    lines.iter().map(|l| (l.text.clone(), l.color)).collect()
}

fn data(kind: u32, damage: Option<i32>, max_damage: Option<i32>) -> ItemStackData {
    ItemStackData { kind, count: 1, damage, max_damage }
}

fn tab_lists() -> Vec<Vec<u32>> {
    let mut l: Vec<Vec<u32>> = vec![Vec::new(); 11];
    l[0] = vec![1, 2];
    l[1] = vec![2, 3];
    l
}

#[test]
fn rarity_colours() {
    assert_eq!(rarity_color(None), 0xFFFFFF);
    assert_eq!(rarity_color(Some(Rarity::Common)), 0xFFFFFF);
    assert_eq!(rarity_color(Some(Rarity::Uncommon)), 0xFFFF55);
    assert_eq!(rarity_color(Some(Rarity::Rare)), 0x55FFFF);
    assert_eq!(rarity_color(Some(Rarity::Epic)), 0xFF55FF);
}

#[test]
fn rgb_split() {
    assert_eq!(rgb_channels(0x5555FF), (0x55, 0x55, 0xFF));
    assert_eq!(rgb_channels(0x123456), (0x12, 0x34, 0x56));
    assert_eq!(rgb_channels(0xFF000000), (0, 0, 0));
}

#[test]
fn decimal_strings() {
    assert_eq!(decimal_string(0), "0");
    assert_eq!(decimal_string(42), "42");
    assert_eq!(decimal_string(-42), "-42");
    assert_eq!(decimal_string(i64::MAX), i64::MAX.to_string());
    assert_eq!(decimal_string(i64::MIN), i64::MIN.to_string());
}

#[test]
fn durability_from_default_max() {
    let l = lore_lines(&data(1, Some(10), None), Some(250), &vec![]);
    assert_eq!(pairs(&l), vec![("Durability: 240 / 250".to_string(), 0xAAAAAA)]);
}

#[test]
fn durability_prefers_stack_max() {
    let l = lore_lines(&data(1, Some(1), Some(5)), Some(250), &vec![]);
    assert_eq!(pairs(&l), vec![("Durability: 4 / 5".to_string(), 0xAAAAAA)]);
}

#[test]
fn no_durability_without_damage_or_max() {
    assert!(lore_lines(&data(1, None, Some(5)), None, &vec![]).is_empty());
    assert!(lore_lines(&data(1, Some(3), None), None, &vec![]).is_empty());
    assert!(lore_lines(&data(1, Some(3), Some(0)), Some(100), &vec![]).is_empty());
}

#[test]
fn enchantment_lines() {
    let ench = vec![("Sharpness".to_string(), 5), ("Unbreaking".to_string(), 3), ("Odd".to_string(), 11)];
    let l = lore_lines(&data(1, None, None), None, &ench);
    assert_eq!(
        pairs(&l),
        vec![
            ("Sharpness V".to_string(), 0xAAAAAA),
            ("Unbreaking III".to_string(), 0xAAAAAA),
            ("Odd ".to_string(), 0xAAAAAA),
        ]
    );
}

#[test]
fn component_count() {
    assert_eq!(total_component_count(&vec![(true, false), (false, false), (false, true), (true, true)]), 3);
    assert_eq!(total_component_count(&vec![]), 0);
}

fn item(advanced_count: usize) -> TooltipItem {
    TooltipItem {
        display_name: "Stone".to_string(),
        rarity: None,
        default_max_damage: None,
        enchantments: vec![],
        resource_name: "stone".to_string(),
        component_count: advanced_count,
    }
}

#[test]
fn tooltip_basic() {
    let l = build_item_tooltip_lines(&data(2, None, None), &item(3), &tab_lists(), false);
    assert_eq!(
        pairs(&l),
        vec![
            ("Stone".to_string(), 0xFFFFFF),
            ("Building Blocks".to_string(), 0x5555FF),
            ("Colored Blocks".to_string(), 0x5555FF),
        ]
    );
}

#[test]
fn tooltip_advanced() {
    let mut it = item(3);
    it.rarity = Some(Rarity::Epic);
    let l = build_item_tooltip_lines(&data(7, Some(1), Some(10)), &it, &tab_lists(), true);
    assert_eq!(
        pairs(&l),
        vec![
            ("Stone".to_string(), 0xFF55FF),
            ("Durability: 9 / 10".to_string(), 0xAAAAAA),
            ("minecraft:stone".to_string(), 0x555555),
            ("3 component(s)".to_string(), 0x555555),
        ]
    );
}
