//! The lines of an item's tooltip on the creative screen, and the colours
//! they are drawn in.

use vstd::prelude::*;
use crate::creative::{
    lists_view, roman, shown_tabs, spec_roman, tabs_containing, titles_containing, ITEM_LIST_COUNT,
};
use crate::inventory::ItemStackData;
use crate::text::{chars_of, string_of};

verus! {

/// The colour of an item name without rarity.
pub const TOOLTIP_NAME_COLOR: u32 = 0xFFFFFF;

/// The colour of the titles of the tabs that hold the item.
pub const TOOLTIP_TAB_COLOR: u32 = 0x5555FF;

/// The colour of the lines shown with advanced tooltips.
pub const TOOLTIP_ADVANCED_COLOR: u32 = 0x555555;

/// The colour of durability and enchantment lines.
pub const TOOLTIP_LORE_COLOR: u32 = 0xAAAAAA;

pub const RARITY_UNCOMMON: u32 = 0xFFFF55;

pub const RARITY_RARE: u32 = 0x55FFFF;

pub const RARITY_EPIC: u32 = 0xFF55FF;

/// The rarity of an item.
#[derive(Clone, Copy, PartialEq, Eq, Debug, Structural)]
pub enum Rarity {
    Common,
    Uncommon,
    Rare,
    Epic,
}

/// The colour of an item's name for its default rarity, where it has one.
pub open spec fn spec_rarity_color(r: Option<Rarity>) -> u32 {
    match r {
        Some(Rarity::Uncommon) => RARITY_UNCOMMON,
        Some(Rarity::Rare) => RARITY_RARE,
        Some(Rarity::Epic) => RARITY_EPIC,
        _ => TOOLTIP_NAME_COLOR,
    }
}

/// The colour of an item's name for its default rarity, where it has one.
pub fn rarity_color(r: Option<Rarity>) -> (c: u32)
    ensures
        c == spec_rarity_color(r),
{
    match r {
        Some(Rarity::Uncommon) => RARITY_UNCOMMON,
        Some(Rarity::Rare) => RARITY_RARE,
        Some(Rarity::Epic) => RARITY_EPIC,
        _ => TOOLTIP_NAME_COLOR,
    }
}

/// The red, green and blue bytes of a colour written `0xRRGGBB`.
pub fn rgb_channels(hex: u32) -> (c: (u8, u8, u8))
    ensures
        c.0 == (hex >> 16u32) & 0xff,
        c.1 == (hex >> 8u32) & 0xff,
        c.2 == hex & 0xff,
{
    assert((hex >> 16u32) & 0xff < 256 && (hex >> 8u32) & 0xff < 256 && hex & 0xff < 256)
        by (bit_vector);
    (((hex >> 16) & 0xff) as u8, ((hex >> 8) & 0xff) as u8, (hex & 0xff) as u8)
}

/// One line of a tooltip and its colour, written `0xRRGGBB`.
pub struct TooltipLine {
    pub text: String,
    pub color: u32,
}

/// The views of tooltip lines: text and colour.
pub open spec fn lines_view(v: Seq<TooltipLine>) -> Seq<(Seq<char>, u32)> {
    v.map_values(|l: TooltipLine| (l.text@, l.color))
}

/// The decimal digit `d`, for `d` below ten.
pub open spec fn digit_char(d: nat) -> char {
    ((48 + d) as u8) as char
}

/// The decimal digits of `n`, without leading zeros.
pub open spec fn digits(n: nat) -> Seq<char>
    decreases n,
{
    if n < 10 {
        seq![digit_char(n)]
    } else {
        digits(n / 10).push(digit_char(n % 10))
    }
}

/// `n` written in decimal, with a minus sign when negative.
pub open spec fn decimal(n: int) -> Seq<char> {
    if n < 0 {
        seq!['-'] + digits((-n) as nat)
    } else {
        digits(n as nat)
    }
}

fn digits_of(n: u64) -> (v: Vec<char>)
    ensures
        v@ == digits(n as nat),
    decreases n,
{
    if n < 10 {
        let d = (48u8 + n as u8) as char;
        vec![d]
    } else {
        let mut v = digits_of(n / 10);
        let d = (48u8 + (n % 10) as u8) as char;
        v.push(d);
        v
    }
}

/// `n` written in decimal.
pub fn decimal_string(n: i64) -> (s: String)
    ensures
        s@ == decimal(n as int),
{
    if n < 0 {
        let m = (-(n as i128)) as u64;
        let mut v: Vec<char> = vec!['-'];
        let d = digits_of(m);
        for i in 0..d.len()
            invariant
                v@ == seq!['-'] + d@.take(i as int),
        {
            v.push(d[i]);
            assert(v@ =~= seq!['-'] + d@.take(i + 1));
        }
        assert(d@.take(d@.len() as int) =~= d@);
        string_of(&v)
    } else {
        string_of(&digits_of(n as u64))
    }
}

/// The damage an item can take: what the stack sets, else the item's
/// default, else none.
pub open spec fn spec_max_damage(data: ItemStackData, default_max_damage: Option<i32>) -> int {
    match data.max_damage {
        Some(m) => m as int,
        None => match default_max_damage {
            Some(m) => m as int,
            None => 0,
        },
    }
}

/// The durability line: what is left of the durability, then the whole.
pub open spec fn durability_text(damage: int, max: int) -> Seq<char> {
    "Durability: "@ + decimal(max - damage) + " / "@ + decimal(max)
}

/// An enchantment line: its name and the level in roman numerals.
pub open spec fn enchantment_text(name: Seq<char>, level: i32) -> Seq<char> {
    name + " "@ + spec_roman(level)
}

/// The lore lines of a stack: the durability, for a damaged stack of an item
/// that can take damage, then one line for each enchantment.
pub open spec fn spec_lore_lines(
    data: ItemStackData,
    default_max_damage: Option<i32>,
    enchantments: Seq<(Seq<char>, i32)>,
) -> Seq<(Seq<char>, u32)> {
    let durability = match data.damage {
        Some(d) => if spec_max_damage(data, default_max_damage) > 0 {
            seq![
                (
                    durability_text(d as int, spec_max_damage(data, default_max_damage)),
                    TOOLTIP_LORE_COLOR,
                ),
            ]
        } else {
            Seq::empty()
        },
        None => Seq::empty(),
    };
    durability + enchantments.map_values(
        |e: (Seq<char>, i32)| (enchantment_text(e.0, e.1), TOOLTIP_LORE_COLOR),
    )
}

/// The views of enchantment names and levels.
pub open spec fn enchantments_view(v: Seq<(String, i32)>) -> Seq<(Seq<char>, i32)> {
    v.map_values(|e: (String, i32)| (e.0@, e.1))
}

fn join3(a: &str, b: &str, c: &str) -> (s: String)
    ensures
        s@ == a@ + b@ + c@,
{
    let mut v = chars_of(a);
    let ghost va = v@;
    let bv = chars_of(b);
    let cv = chars_of(c);
    for i in 0..bv.len()
        invariant
            v@ == va + bv@.take(i as int),
    {
        v.push(bv[i]);
        assert(v@ =~= va + bv@.take(i + 1));
    }
    assert(bv@.take(bv@.len() as int) =~= bv@);
    let ghost vb = v@;
    for i in 0..cv.len()
        invariant
            v@ == vb + cv@.take(i as int),
    {
        v.push(cv[i]);
        assert(v@ =~= vb + cv@.take(i + 1));
    }
    assert(cv@.take(cv@.len() as int) =~= cv@);
    string_of(&v)
}

/// The lore lines of a stack. `default_max_damage` is the item's default
/// durability, where it has one; `enchantments` the names and levels of the
/// stack's enchantments.
pub fn lore_lines(
    data: &ItemStackData,
    default_max_damage: Option<i32>,
    enchantments: &Vec<(String, i32)>,
) -> (lines: Vec<TooltipLine>)
    ensures
        lines_view(lines@) == spec_lore_lines(*data, default_max_damage, enchantments_view(enchantments@)),
{
    let mut lines: Vec<TooltipLine> = Vec::new();
    if let Some(damage) = data.damage {
        let max: i32 = match data.max_damage {
            Some(m) => m,
            None => match default_max_damage {
                Some(m) => m,
                None => 0,
            },
        };
        if max > 0 {
            let left = decimal_string(max as i64 - damage as i64);
            let whole = decimal_string(max as i64);
            let head = join3("Durability: ", left.as_str(), " / ");
            let text = join3(head.as_str(), whole.as_str(), "");
            proof {
                reveal_strlit("");
            }
            assert(text@ =~= durability_text(damage as int, max as int));
            lines.push(TooltipLine { text, color: TOOLTIP_LORE_COLOR });
        }
    }
    let ghost first = lines_view(lines@);
    let ghost ev = enchantments_view(enchantments@);
    for i in 0..enchantments.len()
        invariant
            ev == enchantments_view(enchantments@),
            lines_view(lines@) == first + ev.take(i as int).map_values(
                |e: (Seq<char>, i32)| (enchantment_text(e.0, e.1), TOOLTIP_LORE_COLOR),
            ),
    {
        let (name, level) = (&enchantments[i].0, enchantments[i].1);
        let text = join3(name.as_str(), " ", roman(level));
        let ghost before = lines_view(lines@);
        let ghost tv = text@;
        assert(tv == enchantment_text(name@, level));
        assert(ev[i as int] == (name@, level));
        assert(ev.take(i + 1).map_values(
            |e: (Seq<char>, i32)| (enchantment_text(e.0, e.1), TOOLTIP_LORE_COLOR),
        ) =~= ev.take(i as int).map_values(
            |e: (Seq<char>, i32)| (enchantment_text(e.0, e.1), TOOLTIP_LORE_COLOR),
        ).push((enchantment_text(name@, level), TOOLTIP_LORE_COLOR)));
        lines.push(TooltipLine { text, color: TOOLTIP_LORE_COLOR });
        assert(lines_view(lines@) =~= before.push((tv, TOOLTIP_LORE_COLOR)));
        assert(lines_view(lines@) =~= first + ev.take(i + 1).map_values(
            |e: (Seq<char>, i32)| (enchantment_text(e.0, e.1), TOOLTIP_LORE_COLOR),
        ));
    }
    assert(ev.take(ev.len() as int) =~= ev);
    lines
}

/// How many of the tracked component kinds a stack has, counting the first
/// `n` entries of `flags`; each entry says whether the stack's own
/// components hold the kind and whether the item has it by default.
pub open spec fn count_present(flags: Seq<(bool, bool)>, n: int) -> int
    decreases n,
{
    if n <= 0 {
        0
    } else {
        count_present(flags, n - 1) + if flags[n - 1].0 || flags[n - 1].1 {
            1int
        } else {
            0int
        }
    }
}

/// How many component kinds a stack has: those of `flags`, one entry for
/// each tracked kind, that the stack or its item's defaults hold.
pub fn total_component_count(flags: &Vec<(bool, bool)>) -> (r: usize)
    ensures
        r == count_present(flags@, flags@.len() as int),
{
    let mut r: usize = 0;
    for i in 0..flags.len()
        invariant
            r == count_present(flags@, i as int),
            r <= i,
    {
        let (own, default) = flags[i];
        if own || default {
            r = r + 1;
        }
    }
    r
}

/// What a stack's tooltip needs besides the stack: the item's translated
/// name, its default rarity and durability, the names and levels of the
/// stack's enchantments, its registry name and how many components it has.
pub struct TooltipItem {
    pub display_name: String,
    pub rarity: Option<Rarity>,
    pub default_max_damage: Option<i32>,
    pub enchantments: Vec<(String, i32)>,
    pub resource_name: String,
    pub component_count: usize,
}

/// The tooltip of a stack: its name in the colour of its rarity, the lore
/// lines, the titles of the tabs that hold the item, and with advanced
/// tooltips its namespaced registry name and its number of components.
pub open spec fn spec_tooltip_lines(
    data: ItemStackData,
    item: TooltipItem,
    lists: Seq<Seq<u32>>,
    advanced: bool,
) -> Seq<(Seq<char>, u32)> {
    seq![(item.display_name@, spec_rarity_color(item.rarity))] + spec_lore_lines(
        data,
        item.default_max_damage,
        enchantments_view(item.enchantments@),
    ) + titles_containing(data.kind, lists, shown_tabs().len() as int).map_values(
        |t: Seq<char>| (t, TOOLTIP_TAB_COLOR),
    ) + if advanced {
        seq![
            ("minecraft:"@ + item.resource_name@, TOOLTIP_ADVANCED_COLOR),
            (decimal(item.component_count as int) + " component(s)"@, TOOLTIP_ADVANCED_COLOR),
        ]
    } else {
        Seq::empty()
    }
}

/// The tooltip of a stack. `lists` holds the creative tabs' fixed lists.
pub fn build_item_tooltip_lines(
    data: &ItemStackData,
    item: &TooltipItem,
    lists: &Vec<Vec<u32>>,
    advanced: bool,
) -> (lines: Vec<TooltipLine>)
    requires
        lists@.len() == ITEM_LIST_COUNT,
    ensures
        lines_view(lines@) == spec_tooltip_lines(*data, *item, lists_view(lists@), advanced),
{
    let mut lines: Vec<TooltipLine> = Vec::new();
    lines.push(
        TooltipLine { text: item.display_name.clone(), color: rarity_color(item.rarity) },
    );
    let ghost head = lines_view(lines@);
    let lore = lore_lines(data, item.default_max_damage, &item.enchantments);
    let ghost lore_v = lines_view(lore@);
    let mut lore = lore;
    lines.append(&mut lore);
    assert(lines_view(lines@) =~= head + lore_v);
    let ghost with_lore = lines_view(lines@);
    let titles = tabs_containing(data.kind, lists);
    let ghost tv = titles@.map_values(|t: &str| t@);
    for i in 0..titles.len()
        invariant
            tv == titles@.map_values(|t: &str| t@),
            lines_view(lines@) == with_lore + tv.take(i as int).map_values(
                |t: Seq<char>| (t, TOOLTIP_TAB_COLOR),
            ),
    {
        let ghost before = lines_view(lines@);
        let text = chars_of(titles[i]);
        let text = string_of(&text);
        let ghost t_v = text@;
        assert(t_v == tv[i as int]);
        lines.push(TooltipLine { text, color: TOOLTIP_TAB_COLOR });
        assert(lines_view(lines@) =~= before.push((t_v, TOOLTIP_TAB_COLOR)));
        assert(tv.take(i + 1).map_values(|t: Seq<char>| (t, TOOLTIP_TAB_COLOR)) =~= tv.take(
            i as int,
        ).map_values(|t: Seq<char>| (t, TOOLTIP_TAB_COLOR)).push((t_v, TOOLTIP_TAB_COLOR)));
        assert(lines_view(lines@) =~= with_lore + tv.take(i + 1).map_values(
            |t: Seq<char>| (t, TOOLTIP_TAB_COLOR),
        ));
    }
    assert(tv.take(tv.len() as int) =~= tv);
    if advanced {
        let ghost before = lines_view(lines@);
        let ns = join3("minecraft:", item.resource_name.as_str(), "");
        let count = string_of(&digits_of(item.component_count as u64));
        let cc = join3(count.as_str(), " component(s)", "");
        proof {
            reveal_strlit("");
        }
        assert(ns@ =~= "minecraft:"@ + item.resource_name@);
        assert(cc@ =~= decimal(item.component_count as int) + " component(s)"@);
        lines.push(TooltipLine { text: ns, color: TOOLTIP_ADVANCED_COLOR });
        lines.push(TooltipLine { text: cc, color: TOOLTIP_ADVANCED_COLOR });
        assert(lines_view(lines@) =~= before + seq![
            ("minecraft:"@ + item.resource_name@, TOOLTIP_ADVANCED_COLOR),
            (decimal(item.component_count as int) + " component(s)"@, TOOLTIP_ADVANCED_COLOR),
        ]);
    } else {
        assert(lines_view(lines@) =~= lines_view(lines@) + Seq::<(Seq<char>, u32)>::empty());
    }
    lines
}

} // verus!
