//! The player's inventory: 46 slots in the vanilla numbering, and the display
//! name of an item.

use vstd::prelude::*;
use crate::text::{chars_of, join_chars, join_with, split_chars, split_on, string_of};

verus! {

/// The number of slots of the player inventory.
pub const PLAYER_SLOTS: usize = 46;

/// Crafting output.
pub const CRAFT_OUTPUT: usize = 0;

/// The four crafting inputs.
pub const CRAFT_INPUT_START: usize = 1;

pub const CRAFT_INPUT_END: usize = 5;

/// Helmet, chestplate, leggings and boots.
pub const ARMOR_START: usize = 5;

pub const ARMOR_END: usize = 9;

/// The 27 slots of the main inventory.
pub const MAIN_START: usize = 9;

pub const MAIN_END: usize = 36;

/// The nine hotbar slots.
pub const HOTBAR_START: usize = 36;

pub const HOTBAR_END: usize = 45;

/// The offhand slot.
pub const OFFHAND: usize = 45;

/// An item stack as the client's screens read it: the item's registry
/// number, the count, and the durability components of the stack, where it
/// has them.
#[derive(Clone, Copy, PartialEq, Eq, Debug, Structural)]
pub struct ItemStackData {
    pub kind: u32,
    pub count: i32,
    /// The damage the stack has taken.
    pub damage: Option<i32>,
    /// The damage the stack can take, where the stack sets it.
    pub max_damage: Option<i32>,
}

/// The content of a slot.
#[derive(Clone, Copy, PartialEq, Eq, Debug, Structural)]
pub enum ItemStack {
    Empty,
    Present(ItemStackData),
}

/// The slots of the player inventory: always exactly 46.
pub struct Inventory {
    slots: [ItemStack; PLAYER_SLOTS],
}

impl View for Inventory {
    type V = Seq<ItemStack>;

    closed spec fn view(&self) -> Seq<ItemStack> {
        self.slots@
    }
}

/// `items` made exactly 46 long: cut after the 46th, or filled up with empty
/// slots.
pub open spec fn fit_to_slots(items: Seq<ItemStack>) -> Seq<ItemStack> {
    if items.len() >= PLAYER_SLOTS {
        items.subrange(0, PLAYER_SLOTS as int)
    } else {
        items + Seq::new((PLAYER_SLOTS - items.len()) as nat, |i: int| ItemStack::Empty)
    }
}

/// The slot at `index`; empty outside the inventory.
pub open spec fn slot_at(slots: Seq<ItemStack>, index: int) -> ItemStack {
    if 0 <= index < slots.len() {
        slots[index]
    } else {
        ItemStack::Empty
    }
}

impl Inventory {
    /// Law: the inventory has 46 slots, whatever was done to it.
    pub proof fn lemma_slot_count(&self)
        ensures
            self@.len() == PLAYER_SLOTS,
    {
    }

    /// An inventory of 46 empty slots.
    pub fn new() -> (inv: Self)
        ensures
            inv@ == Seq::new(PLAYER_SLOTS as nat, |i: int| ItemStack::Empty),
    {
        broadcast use vstd::array::group_array_axioms;

        let slots: [ItemStack; PLAYER_SLOTS] = [ItemStack::Empty; PLAYER_SLOTS];
        let inv = Inventory { slots };
        assert(inv@ =~= Seq::new(PLAYER_SLOTS as nat, |i: int| ItemStack::Empty));
        inv
    }

    /// Replaces every slot: the first 46 of `items`, filled up with empty
    /// slots where there are fewer.
    pub fn set_contents(&mut self, items: Vec<ItemStack>)
        ensures
            final(self)@ == fit_to_slots(items@),
    {
        broadcast use vstd::array::group_array_axioms;

        for i in 0..PLAYER_SLOTS
            invariant
                forall|j: int| 0 <= j < i ==> self@[j] == fit_to_slots(items@)[j],
        {
            let item = if i < items.len() {
                items[i]
            } else {
                ItemStack::Empty
            };
            self.slots[i] = item;
        }
        assert(self@ =~= fit_to_slots(items@));
    }

    /// Puts `item` in slot `index`; an index outside the inventory changes
    /// nothing.
    pub fn set_slot(&mut self, index: usize, item: ItemStack)
        ensures
            index < PLAYER_SLOTS ==> final(self)@ == old(self)@.update(index as int, item),
            index >= PLAYER_SLOTS ==> final(self)@ == old(self)@,
    {
        broadcast use vstd::array::group_array_axioms;

        if index < PLAYER_SLOTS {
            self.slots[index] = item;
        }
    }

    /// The stack in slot `index`; empty outside the inventory.
    pub fn slot(&self, index: usize) -> (r: &ItemStack)
        ensures
            *r == slot_at(self@, index as int),
    {
        if index < PLAYER_SLOTS {
            &self.slots[index]
        } else {
            &ItemStack::Empty
        }
    }

    fn slot_range(&self, start: usize, end: usize) -> (r: &[ItemStack])
        requires
            start <= end <= PLAYER_SLOTS,
        ensures
            r@ == self@.subrange(start as int, end as int),
    {
        vstd::slice::slice_subrange(self.slots.as_slice(), start, end)
    }

    /// The 27 slots of the main inventory, 9 to 35.
    pub fn main_slots(&self) -> (r: &[ItemStack])
        ensures
            r@ == self@.subrange(MAIN_START as int, MAIN_END as int),
    {
        self.slot_range(MAIN_START, MAIN_END)
    }

    /// The nine hotbar slots, 36 to 44.
    pub fn hotbar_slots(&self) -> (r: &[ItemStack])
        ensures
            r@ == self@.subrange(HOTBAR_START as int, HOTBAR_END as int),
    {
        self.slot_range(HOTBAR_START, HOTBAR_END)
    }

    /// The four armor slots, 5 to 8: helmet, chestplate, leggings, boots.
    pub fn armor_slots(&self) -> (r: &[ItemStack])
        ensures
            r@ == self@.subrange(ARMOR_START as int, ARMOR_END as int),
    {
        self.slot_range(ARMOR_START, ARMOR_END)
    }

    /// The four crafting inputs, slots 1 to 4.
    pub fn craft_input_slots(&self) -> (r: &[ItemStack])
        ensures
            r@ == self@.subrange(CRAFT_INPUT_START as int, CRAFT_INPUT_END as int),
    {
        self.slot_range(CRAFT_INPUT_START, CRAFT_INPUT_END)
    }

    /// The crafting output, slot 0.
    pub fn craft_output(&self) -> (r: &ItemStack)
        ensures
            *r == slot_at(self@, CRAFT_OUTPUT as int),
    {
        self.slot(CRAFT_OUTPUT)
    }

    /// The offhand, slot 45.
    pub fn offhand(&self) -> (r: &ItemStack)
        ensures
            *r == slot_at(self@, OFFHAND as int),
    {
        self.slot(OFFHAND)
    }
}

/// Law: a slot gives back what was last put in it, and putting a stack in
/// one slot leaves every other slot as it was.
pub proof fn lemma_set_then_read(slots: Seq<ItemStack>, index: int, item: ItemStack, other: int)
    requires
        slots.len() == PLAYER_SLOTS,
        0 <= index < PLAYER_SLOTS,
    ensures
        slot_at(slots.update(index, item), index) == item,
        other != index ==> slot_at(slots.update(index, item), other) == slot_at(slots, other),
{
}

/// Law: the sections of the inventory — crafting output, crafting inputs,
/// armor, main inventory, hotbar and offhand — follow each other and cover
/// all 46 slots once.
pub proof fn lemma_sections_partition(slots: Seq<ItemStack>)
    requires
        slots.len() == PLAYER_SLOTS,
    ensures
        seq![slot_at(slots, CRAFT_OUTPUT as int)] + slots.subrange(
            CRAFT_INPUT_START as int,
            CRAFT_INPUT_END as int,
        ) + slots.subrange(ARMOR_START as int, ARMOR_END as int) + slots.subrange(
            MAIN_START as int,
            MAIN_END as int,
        ) + slots.subrange(HOTBAR_START as int, HOTBAR_END as int) + seq![
            slot_at(slots, OFFHAND as int),
        ] == slots,
{
    assert(seq![slot_at(slots, CRAFT_OUTPUT as int)] + slots.subrange(
        CRAFT_INPUT_START as int,
        CRAFT_INPUT_END as int,
    ) + slots.subrange(ARMOR_START as int, ARMOR_END as int) + slots.subrange(
        MAIN_START as int,
        MAIN_END as int,
    ) + slots.subrange(HOTBAR_START as int, HOTBAR_END as int) + seq![
        slot_at(slots, OFFHAND as int),
    ] =~= slots);
}

/// The uppercase mapping of a character, one or more characters long, as
/// Unicode defines it.
pub uninterp spec fn char_uppercase(c: char) -> Seq<char>;

/// The uppercase form of an ASCII character: `a` to `z` become `A` to `Z`,
/// every other ASCII character has no uppercase mapping and stays.
pub open spec fn ascii_upper(c: char) -> char {
    if 97 <= (c as u32) && (c as u32) <= 122 {
        ((c as u32) - 32) as char
    } else {
        c
    }
}

/// `char::to_uppercase`: the characters of the uppercase mapping of `c`; for
/// an ASCII character, that one character in upper case, as std documents.
#[verifier::external_body]
fn uppercase(c: char) -> (r: Vec<char>)
    ensures
        r@ == char_uppercase(c),
        (c as u32) < 128 ==> r@ == seq![ascii_upper(c)],
{
    c.to_uppercase().collect()
}

/// A word with its first character in upper case.
pub open spec fn capitalized(w: Seq<char>) -> Seq<char> {
    if w.len() == 0 {
        w
    } else {
        char_uppercase(w[0]) + w.drop_first()
    }
}

/// The name with every underscore made a space.
pub open spec fn underscores_to_spaces(name: Seq<char>) -> Seq<char> {
    name.map_values(|c: char| if c == '_' { ' ' } else { c })
}

/// The display name of an item from its registry name: underscores become
/// spaces and each word starts in upper case, so `diamond_sword` reads
/// `Diamond Sword`.
pub open spec fn spec_item_display_name(name: Seq<char>) -> Seq<char> {
    join_with(
        split_on(underscores_to_spaces(name), ' ').map_values(|w: Seq<char>| capitalized(w)),
        ' ',
    )
}

/// Every character of `s` is ASCII.
pub open spec fn all_ascii(s: Seq<char>) -> bool {
    forall|i: int| 0 <= i < s.len() ==> (#[trigger] s[i] as u32) < 128
}

/// A word with its first ASCII character in upper case.
pub open spec fn ascii_capitalized(w: Seq<char>) -> Seq<char> {
    if w.len() == 0 {
        w
    } else {
        seq![ascii_upper(w[0])] + w.drop_first()
    }
}

/// The display name of an item whose registry name is ASCII, as
/// `spec_item_display_name` gives it there.
pub open spec fn spec_ascii_display_name(name: Seq<char>) -> Seq<char> {
    join_with(
        split_on(underscores_to_spaces(name), ' ').map_values(|w: Seq<char>| ascii_capitalized(w)),
        ' ',
    )
}

proof fn lemma_split_ascii(s: Seq<char>, sep: char)
    requires
        all_ascii(s),
    ensures
        forall|i: int| 0 <= i < split_on(s, sep).len() ==> all_ascii(#[trigger] split_on(s, sep)[i]),
    decreases s.len(),
{
    if s.len() > 0 {
        let d = s.drop_last();
        assert(all_ascii(d)) by {
            assert forall|i: int| 0 <= i < d.len() implies (#[trigger] d[i] as u32) < 128 by {
                assert(d[i] == s[i]);
            }
        }
        lemma_split_ascii(d, sep);
        crate::text::lemma_split_on_nonempty(d, sep);
        let parts = split_on(d, sep);
        if s.last() != sep {
            let np = parts.last().push(s.last());
            assert(all_ascii(np)) by {
                assert forall|i: int| 0 <= i < np.len() implies (#[trigger] np[i] as u32) < 128 by {
                    if i < parts.last().len() {
                        assert(np[i] == parts.last()[i]);
                        assert(all_ascii(parts[parts.len() - 1]));
                    } else {
                        assert(np[i] == s[s.len() - 1]);
                    }
                }
            }
        }
    }
}

/// The display name of an item from its registry name; for an ASCII name,
/// each word's first letter made upper case.
pub fn item_display_name(resource_name: &str) -> (r: String)
    ensures
        r@ == spec_item_display_name(resource_name@),
        all_ascii(resource_name@) ==> r@ == spec_ascii_display_name(resource_name@),
{
    let chars = chars_of(resource_name);
    let mut spaced: Vec<char> = Vec::new();
    for i in 0..chars.len()
        invariant
            spaced@ == underscores_to_spaces(chars@.take(i as int)),
    {
        let c = chars[i];
        spaced.push(if c == '_' { ' ' } else { c });
        assert(spaced@ =~= underscores_to_spaces(chars@.take(i + 1)));
    }
    assert(chars@.take(chars@.len() as int) =~= chars@);
    let words = split_chars(&spaced, ' ');
    let ghost wv = words@.map_values(|p: Vec<char>| p@);
    let ghost ascii = all_ascii(resource_name@);
    proof {
        if ascii {
            assert forall|i: int| 0 <= i < spaced@.len() implies (#[trigger] spaced@[i] as u32) < 128 by {
                assert(resource_name@[i] == chars@[i]);
            }
            lemma_split_ascii(spaced@, ' ');
        }
    }
    let mut caps: Vec<Vec<char>> = Vec::new();
    for i in 0..words.len()
        invariant
            wv == words@.map_values(|p: Vec<char>| p@),
            wv == split_on(spaced@, ' '),
            ascii ==> forall|j: int| 0 <= j < wv.len() ==> all_ascii(#[trigger] wv[j]),
            caps@.len() == i,
            forall|j: int| 0 <= j < i ==> caps@[j]@ == capitalized(wv[j]),
            ascii ==> forall|j: int| 0 <= j < i ==> caps@[j]@ == ascii_capitalized(wv[j]),
    {
        let w = &words[i];
        let mut cap: Vec<char>;
        if w.len() == 0 {
            cap = Vec::new();
            assert(cap@ =~= w@);
        } else {
            cap = uppercase(w[0]);
            let ghost up = cap@;
            let mut k: usize = 1;
            while k < w.len()
                invariant
                    1 <= k <= w@.len(),
                    cap@ == up + w@.subrange(1, k as int),
                decreases w@.len() - k,
            {
                cap.push(w[k]);
                assert(cap@ =~= up + w@.subrange(1, k + 1));
                k = k + 1;
            }
            assert(w@.subrange(1, w@.len() as int) =~= w@.drop_first());
            proof {
                if ascii {
                    assert(all_ascii(wv[i as int]));
                    assert(w@[0] == wv[i as int][0]);
                }
            }
        }
        caps.push(cap);
    }
    assert(caps@.map_values(|p: Vec<char>| p@) =~= split_on(underscores_to_spaces(resource_name@), ' ').map_values(|w: Seq<char>| capitalized(w)));
    proof {
        if ascii {
            assert(caps@.map_values(|p: Vec<char>| p@) =~= split_on(underscores_to_spaces(resource_name@), ' ').map_values(|w: Seq<char>| ascii_capitalized(w)));
        }
    }
    let joined = join_chars(&caps, ' ');
    string_of(&joined)
}

} // verus!
