//! The block registry: the face textures of each block and its baked model
//! variants, keyed by block name.

use vstd::prelude::*;
use crate::player_tab::strings_view;
use crate::text::{chars_of, str_eq, string_of};

verus! {

/// How a block's faces are tinted.
#[derive(Clone, Copy, PartialEq, Eq, Debug, Structural)]
pub enum Tint {
    /// Not tinted.
    Untinted,
    /// Tinted with the biome's grass colour.
    Grass,
    /// Tinted with the biome's foliage colour.
    Foliage,
}

/// The textures of the six faces of a block, an optional overlay for its
/// sides, and its tint.
#[derive(Clone, Debug)]
pub struct FaceTextures {
    pub top: String,
    pub bottom: String,
    pub north: String,
    pub south: String,
    pub east: String,
    pub west: String,
    pub side_overlay: Option<String>,
    pub tint: Tint,
}

/// The mathematical value of [`FaceTextures`].
pub struct FaceTexturesView {
    pub top: Seq<char>,
    pub bottom: Seq<char>,
    pub north: Seq<char>,
    pub south: Seq<char>,
    pub east: Seq<char>,
    pub west: Seq<char>,
    pub side_overlay: Option<Seq<char>>,
    pub tint: Tint,
}

impl View for FaceTextures {
    type V = FaceTexturesView;

    open spec fn view(&self) -> FaceTexturesView {
        FaceTexturesView {
            top: self.top@,
            bottom: self.bottom@,
            north: self.north@,
            south: self.south@,
            east: self.east@,
            west: self.west@,
            side_overlay: match self.side_overlay {
                Some(s) => Some(s@),
                None => None,
            },
            tint: self.tint,
        }
    }
}

fn own(s: &str) -> (r: String)
    ensures
        r@ == s@,
{
    string_of(&chars_of(s))
}

fn copy_string(s: &String) -> (r: String)
    ensures
        r@ == s@,
{
    s.clone()
}

impl FaceTextures {
    /// The textures of each face, an optional side overlay, and the tint.
    pub fn new(
        top: &str,
        bottom: &str,
        north: &str,
        south: &str,
        east: &str,
        west: &str,
        side_overlay: Option<&str>,
        tint: Tint,
    ) -> (f: Self)
        ensures
            f@ == (FaceTexturesView {
                top: top@,
                bottom: bottom@,
                north: north@,
                south: south@,
                east: east@,
                west: west@,
                side_overlay: match side_overlay {
                    Some(s) => Some(s@),
                    None => None,
                },
                tint,
            }),
    {
        let overlay = match side_overlay {
            Some(s) => Some(own(s)),
            None => None,
        };
        FaceTextures {
            top: own(top),
            bottom: own(bottom),
            north: own(north),
            south: own(south),
            east: own(east),
            west: own(west),
            side_overlay: overlay,
            tint,
        }
    }

    /// The same texture on every face, without overlay.
    pub fn uniform(name: &str, tint: Tint) -> (f: Self)
        ensures
            f@ == (FaceTexturesView {
                top: name@,
                bottom: name@,
                north: name@,
                south: name@,
                east: name@,
                west: name@,
                side_overlay: None,
                tint,
            }),
    {
        Self::new(name, name, name, name, name, name, None, tint)
    }

    /// A copy with the same value.
    pub fn copy(&self) -> (f: Self)
        ensures
            f@ == self@,
    {
        FaceTextures {
            top: copy_string(&self.top),
            bottom: copy_string(&self.bottom),
            north: copy_string(&self.north),
            south: copy_string(&self.south),
            east: copy_string(&self.east),
            west: copy_string(&self.west),
            side_overlay: match &self.side_overlay {
                Some(s) => Some(copy_string(s)),
                None => None,
            },
            tint: self.tint,
        }
    }
}

/// What the registry keeps of a baked block model: the texture of each quad,
/// in order, and whether the model fills its whole cube.
pub struct BakedModel {
    pub quad_textures: Vec<String>,
    pub is_full_cube: bool,
}

/// The first position of `key` among the keys of `entries`.
pub open spec fn key_index<V>(entries: Seq<(String, V)>, key: Seq<char>) -> Option<int>
    decreases entries.len(),
{
    if entries.len() == 0 {
        None
    } else {
        match key_index(entries.drop_last(), key) {
            Some(i) => Some(i),
            None => if entries.last().0@ == key {
                Some(entries.len() - 1)
            } else {
                None
            },
        }
    }
}

/// The keys of `entries` are distinct.
pub open spec fn distinct_keys<V>(entries: Seq<(String, V)>) -> bool {
    forall|i: int, j: int| 0 <= i < j < entries.len() ==> entries[i].0@ != entries[j].0@
}

proof fn lemma_key_index<V>(entries: Seq<(String, V)>, key: Seq<char>)
    ensures
        match key_index(entries, key) {
            Some(i) => 0 <= i < entries.len() && entries[i].0@ == key && forall|j: int|
                0 <= j < i ==> entries[j].0@ != key,
            None => forall|j: int| 0 <= j < entries.len() ==> entries[j].0@ != key,
        },
    decreases entries.len(),
{
    if entries.len() > 0 {
        let d = entries.drop_last();
        lemma_key_index(d, key);
        assert forall|j: int| 0 <= j < d.len() implies d[j] == entries[j] by {}
    }
}

/// The position of `key` among the keys of `entries`.
pub fn find_key<V>(entries: &Vec<(String, V)>, key: &str) -> (r: Option<usize>)
    ensures
        match r {
            Some(i) => key_index(entries@, key@) == Some(i as int),
            None => key_index(entries@, key@) is None,
        },
        match r {
            Some(i) => i < entries@.len() && entries@[i as int].0@ == key@,
            None => forall|j: int| 0 <= j < entries@.len() ==> entries@[j].0@ != key@,
        },
{
    proof {
        lemma_key_index(entries@, key@);
    }
    for i in 0..entries.len()
        invariant
            forall|j: int| 0 <= j < i ==> entries@[j].0@ != key@,
    {
        if str_eq(entries[i].0.as_str(), key) {
            proof {
                lemma_key_index(entries@, key@);
                match key_index(entries@, key@) {
                    Some(k) => {
                        assert(k == i);
                    },
                    None => {
                        assert(entries@[i as int].0@ == key@);
                    },
                }
            }
            return Some(i);
        }
    }
    proof {
        match key_index(entries@, key@) {
            Some(k) => {
                assert(entries@[k].0@ == key@);
            },
            None => {},
        }
    }
    None
}

/// The views of texture entries.
pub open spec fn textures_view(entries: Seq<(String, FaceTextures)>) -> Seq<(Seq<char>, FaceTexturesView)> {
    entries.map_values(|e: (String, FaceTextures)| (e.0@, e.1@))
}

/// The view of the same texture on every face, untinted.
pub open spec fn uniform_view(name: Seq<char>) -> FaceTexturesView {
    FaceTexturesView {
        top: name,
        bottom: name,
        north: name,
        south: name,
        east: name,
        west: name,
        side_overlay: None,
        tint: Tint::Untinted,
    }
}

/// `entries` with an entry for `block` that shows `texture` on every face
/// added, where it has none for `block`.
pub open spec fn with_default(
    entries: Seq<(Seq<char>, FaceTexturesView)>,
    block: Seq<char>,
    texture: Seq<char>,
) -> Seq<(Seq<char>, FaceTexturesView)> {
    if exists|i: int| 0 <= i < entries.len() && #[trigger] entries[i].0 == block {
        entries
    } else {
        entries.push((block, uniform_view(texture)))
    }
}

/// Freshly built textures get still water and still lava for the fluids
/// that lack textures.
pub open spec fn with_fluid_defaults(entries: Seq<(Seq<char>, FaceTexturesView)>) -> Seq<
    (Seq<char>, FaceTexturesView),
> {
    with_default(with_default(entries, "water"@, "water_still"@), "lava"@, "lava_still"@)
}

/// Law: after the fluid defaults, water and lava both have textures, and
/// every entry that was there stays, in place and unchanged.
pub proof fn lemma_fluid_defaults(entries: Seq<(Seq<char>, FaceTexturesView)>)
    ensures
        exists|i: int|
            0 <= i < with_fluid_defaults(entries).len() && #[trigger] with_fluid_defaults(
                entries,
            )[i].0 == "water"@,
        exists|i: int|
            0 <= i < with_fluid_defaults(entries).len() && #[trigger] with_fluid_defaults(
                entries,
            )[i].0 == "lava"@,
        with_fluid_defaults(entries).len() >= entries.len(),
        forall|i: int| 0 <= i < entries.len() ==> #[trigger] with_fluid_defaults(entries)[i] == entries[i],
{
    let w = with_default(entries, "water"@, "water_still"@);
    let r = with_default(w, "lava"@, "lava_still"@);
    if exists|i: int| 0 <= i < entries.len() && #[trigger] entries[i].0 == "water"@ {
        let i = choose|i: int| 0 <= i < entries.len() && #[trigger] entries[i].0 == "water"@;
        assert(w[i].0 == "water"@);
    } else {
        assert(w[w.len() - 1].0 == "water"@);
    }
    let k = choose|i: int| 0 <= i < w.len() && #[trigger] w[i].0 == "water"@;
    assert(with_fluid_defaults(entries) == r);
    if exists|i: int| 0 <= i < w.len() && #[trigger] w[i].0 == "lava"@ {
        let j = choose|i: int| 0 <= i < w.len() && #[trigger] w[i].0 == "lava"@;
        assert(r == w);
        assert(r[j].0 == "lava"@);
        assert(r[k].0 == "water"@);
    } else {
        assert(r[k] == w[k]);
        assert(r[r.len() - 1].0 == "lava"@);
    }
}

/// Where the registry's textures come from.
pub enum TextureSource {
    /// Read back from the cache file.
    Cached(Vec<(String, FaceTextures)>),
    /// Built from the block models; they are written to the cache afterwards.
    Built(Vec<(String, FaceTextures)>),
}

/// The block registry.
pub struct BlockRegistry {
    textures: Vec<(String, FaceTextures)>,
    baked: Vec<(String, Vec<(String, BakedModel)>)>,
}

fn add_default(entries: &mut Vec<(String, FaceTextures)>, block: &str, texture: &str)
    ensures
        textures_view(final(entries)@) == with_default(textures_view(old(entries)@), block@, texture@),
        distinct_keys(old(entries)@) ==> distinct_keys(final(entries)@),
{
    let ghost before = textures_view(entries@);
    match find_key(entries, block) {
        Some(i) => {
            assert(before[i as int].0 == block@);
            assert(with_default(before, block@, texture@) == before);
        },
        None => {
            proof {
                lemma_key_index(entries@, block@);
                assert forall|i: int| 0 <= i < before.len() implies before[i].0 != block@ by {
                    assert(before[i].0 == entries@[i].0@);
                }
            }
            let e = (own(block), FaceTextures::uniform(texture, Tint::Untinted));
            let ghost ev = (e.0@, e.1@);
            let ghost old_entries = entries@;
            entries.push(e);
            assert(textures_view(entries@) =~= before.push(ev));
            assert(distinct_keys(old_entries) ==> distinct_keys(entries@)) by {
                if distinct_keys(old_entries) {
                    assert forall|i: int, j: int|
                        0 <= i < j < entries@.len() implies entries@[i].0@ != entries@[j].0@ by {
                        if j == entries@.len() - 1 {
                            assert(entries@[i].0@ == before[i].0);
                        } else {
                            assert(entries@[i] == old_entries[i]);
                            assert(entries@[j] == old_entries[j]);
                        }
                    }
                }
            }
        },
    }
}

impl BlockRegistry {
    /// The block names and their face textures.
    pub closed spec fn texture_entries(&self) -> Seq<(String, FaceTextures)> {
        self.textures@
    }

    /// The block names and their model variants, keyed by variant.
    pub closed spec fn model_entries(&self) -> Seq<(String, Vec<(String, BakedModel)>)> {
        self.baked@
    }

    /// Builds the registry from its textures and the baked models of each
    /// block. Built textures first get the fluid defaults; cached ones are
    /// taken as they are.
    pub fn load(textures: TextureSource, baked: Vec<(String, Vec<(String, BakedModel)>)>) -> (r:
        Self)
        ensures
            textures_view(r.texture_entries()) == match textures {
                TextureSource::Cached(t) => textures_view(t@),
                TextureSource::Built(t) => with_fluid_defaults(textures_view(t@)),
            },
            match textures {
                TextureSource::Cached(t) => distinct_keys(t@),
                TextureSource::Built(t) => distinct_keys(t@),
            } ==> distinct_keys(r.texture_entries()),
            r.model_entries() == baked@,
    {
        let textures = match textures {
            TextureSource::Cached(t) => t,
            TextureSource::Built(t) => {
                let mut t = t;
                add_default(&mut t, "water", "water_still");
                add_default(&mut t, "lava", "lava_still");
                t
            },
        };
        BlockRegistry { textures, baked }
    }

    /// The textures, for writing to the cache.
    pub fn textures(&self) -> (t: &Vec<(String, FaceTextures)>)
        ensures
            t@ == self.texture_entries(),
    {
        &self.textures
    }

    /// The face textures of the block named `block`, where it has some.
    pub fn get_textures(&self, block: &str) -> (r: Option<&FaceTextures>)
        ensures
            match key_index(self.texture_entries(), block@) {
                Some(i) => r == Some(&self.texture_entries()[i].1),
                None => r is None,
            },
    {
        match find_key(&self.textures, block) {
            Some(i) => Some(&self.textures[i].1),
            None => None,
        }
    }
}

/// `a` sorts strictly before `b`: character by character, and a proper
/// prefix first. For text this is the order of `str`'s `Ord`, since UTF-8
/// keeps the order of code points.
pub open spec fn lex_lt(a: Seq<char>, b: Seq<char>) -> bool
    decreases a.len(),
{
    if a.len() == 0 {
        b.len() > 0
    } else if b.len() == 0 {
        false
    } else if a[0] != b[0] {
        (a[0] as u32) < (b[0] as u32)
    } else {
        lex_lt(a.drop_first(), b.drop_first())
    }
}

proof fn lemma_lex_irreflexive(a: Seq<char>)
    ensures
        !lex_lt(a, a),
    decreases a.len(),
{
    if a.len() > 0 {
        lemma_lex_irreflexive(a.drop_first());
    }
}

proof fn lemma_lex_asymmetric(a: Seq<char>, b: Seq<char>)
    ensures
        lex_lt(a, b) ==> !lex_lt(b, a),
    decreases a.len(),
{
    if a.len() > 0 && b.len() > 0 && a[0] == b[0] {
        lemma_lex_asymmetric(a.drop_first(), b.drop_first());
    }
}

proof fn lemma_lex_total(a: Seq<char>, b: Seq<char>)
    ensures
        a != b ==> lex_lt(a, b) || lex_lt(b, a),
    decreases a.len(),
{
    if a.len() > 0 && b.len() > 0 && a[0] == b[0] {
        lemma_lex_total(a.drop_first(), b.drop_first());
        if a.drop_first() == b.drop_first() {
            assert(a =~= seq![a[0]] + a.drop_first());
            assert(b =~= seq![b[0]] + b.drop_first());
        }
    } else if a.len() == 0 && b.len() == 0 {
        assert(a =~= b);
    } else if a.len() > 0 && b.len() > 0 {
        let x = a[0] as u32;
        let y = b[0] as u32;
        vstd::utf8::char_u32_cast(a[0], x);
        vstd::utf8::char_u32_cast(b[0], y);
    }
}

proof fn lemma_lex_transitive(a: Seq<char>, b: Seq<char>, c: Seq<char>)
    requires
        lex_lt(a, b),
        lex_lt(b, c),
    ensures
        lex_lt(a, c),
    decreases a.len(),
{
    if a.len() > 0 && b.len() > 0 && c.len() > 0 && a[0] == b[0] && b[0] == c[0] {
        lemma_lex_transitive(a.drop_first(), b.drop_first(), c.drop_first());
    }
}

/// The entries are in strictly increasing order of their keys.
pub open spec fn sorted_by_key(s: Seq<(String, String)>) -> bool {
    forall|i: int, j: int| 0 <= i < j < s.len() ==> lex_lt(s[i].0@, s[j].0@)
}

/// `s` holds the entries of `props` sorted by key.
pub open spec fn is_sorted_version(s: Seq<(String, String)>, props: Seq<(String, String)>) -> bool {
    s.to_multiset() == props.to_multiset() && sorted_by_key(s)
}

/// The entries of `props` sorted by key.
pub open spec fn sorted_props(props: Seq<(String, String)>) -> Seq<(String, String)> {
    choose|s: Seq<(String, String)>| is_sorted_version(s, props)
}

/// The key of a model variant: the block's properties sorted by name,
/// written `name=value` and joined by commas.
pub open spec fn key_text(s: Seq<(String, String)>) -> Seq<char>
    decreases s.len(),
{
    if s.len() == 0 {
        Seq::empty()
    } else if s.len() == 1 {
        s[0].0@ + "="@ + s[0].1@
    } else {
        key_text(s.drop_last()) + ","@ + s.last().0@ + "="@ + s.last().1@
    }
}

/// The variant key for a block with the properties `props`.
pub open spec fn variant_key(props: Seq<(String, String)>) -> Seq<char> {
    key_text(sorted_props(props))
}

/// How many entries of the sorted `s` have keys below that of `e`.
spec fn insert_pos(s: Seq<(String, String)>, e: (String, String)) -> int
    decreases s.len(),
{
    if s.len() == 0 || lex_lt(e.0@, s[0].0@) {
        0
    } else {
        1 + insert_pos(s.drop_first(), e)
    }
}

proof fn lemma_insert_pos(s: Seq<(String, String)>, e: (String, String))
    requires
        sorted_by_key(s),
        forall|i: int| 0 <= i < s.len() ==> s[i].0@ != e.0@,
    ensures
        0 <= insert_pos(s, e) <= s.len(),
        forall|i: int| 0 <= i < insert_pos(s, e) ==> lex_lt(s[i].0@, e.0@),
        forall|i: int| insert_pos(s, e) <= i < s.len() ==> lex_lt(e.0@, s[i].0@),
    decreases s.len(),
{
    if s.len() == 0 {
    } else if lex_lt(e.0@, s[0].0@) {
        assert forall|i: int| 0 <= i < s.len() implies lex_lt(e.0@, s[i].0@) by {
            if i > 0 {
                lemma_lex_transitive(e.0@, s[0].0@, s[i].0@);
            }
        }
    } else {
        let rest = s.drop_first();
        assert forall|i: int| 0 <= i < rest.len() implies rest[i].0@ != e.0@ by {
            assert(rest[i] == s[i + 1]);
        }
        lemma_insert_pos(rest, e);
        lemma_lex_total(s[0].0@, e.0@);
        assert forall|i: int| 0 <= i < insert_pos(s, e) implies lex_lt(s[i].0@, e.0@) by {
            if i > 0 {
                assert(s[i] == rest[i - 1]);
            }
        }
        assert forall|i: int| insert_pos(s, e) <= i < s.len() implies lex_lt(e.0@, s[i].0@) by {
            assert(s[i] == rest[i - 1]);
        }
    }
}

proof fn lemma_sorted_version_exists(props: Seq<(String, String)>)
    requires
        distinct_keys(props),
    ensures
        exists|s: Seq<(String, String)>| is_sorted_version(s, props),
    decreases props.len(),
{
    broadcast use vstd::seq_lib::group_to_multiset_ensures;

    if props.len() == 0 {
        assert(is_sorted_version(props, props));
    } else {
        let init = props.drop_last();
        let x = props.last();
        assert(distinct_keys(init)) by {
            assert forall|i: int, j: int| 0 <= i < j < init.len() implies init[i].0@ != init[j].0@ by {
                assert(init[i] == props[i] && init[j] == props[j]);
            }
        }
        lemma_sorted_version_exists(init);
        let s = choose|s: Seq<(String, String)>| is_sorted_version(s, init);
        assert forall|i: int| 0 <= i < s.len() implies s[i].0@ != x.0@ by {
            assert(s.to_multiset().contains(s[i]));
            assert(init.to_multiset().contains(s[i]));
            let m = choose|m: int| 0 <= m < init.len() && init[m] == s[i];
            assert(props[m] == s[i]);
        }
        lemma_insert_pos(s, x);
        let k = insert_pos(s, x);
        let r = s.insert(k, x);
        assert forall|i: int, j: int| 0 <= i < j < r.len() implies lex_lt(r[i].0@, r[j].0@) by {
            if j < k {
                assert(r[i] == s[i] && r[j] == s[j]);
            } else if j == k {
                assert(r[i] == s[i] && r[j] == x);
            } else if i < k {
                assert(r[i] == s[i] && r[j] == s[j - 1]);
            } else if i == k {
                assert(r[i] == x && r[j] == s[j - 1]);
            } else {
                assert(r[i] == s[i - 1] && r[j] == s[j - 1]);
            }
        }
        assert(init.push(x) =~= props);
        assert(r.to_multiset() == props.to_multiset());
        assert(is_sorted_version(r, props));
    }
}

/// Law: the variant key depends on which properties a block has, not on the
/// order they are listed in.
pub proof fn lemma_variant_key_order_free(p: Seq<(String, String)>, q: Seq<(String, String)>)
    requires
        distinct_keys(p),
        p.to_multiset() == q.to_multiset(),
    ensures
        variant_key(p) == variant_key(q),
{
    lemma_sorted_version_exists(p);
    let sp = sorted_props(p);
    let w = choose|s: Seq<(String, String)>| is_sorted_version(s, p);
    assert(is_sorted_version(w, q));
    let sq = sorted_props(q);
    lemma_sorted_version_unique(sp, sq);
}

/// Law: the entries of a collection sorted by distinct keys come in one
/// order only.
pub proof fn lemma_sorted_version_unique(a: Seq<(String, String)>, b: Seq<(String, String)>)
    requires
        a.to_multiset() == b.to_multiset(),
        sorted_by_key(a),
        sorted_by_key(b),
    ensures
        a == b,
    decreases a.len(),
{
    broadcast use vstd::seq_lib::group_to_multiset_ensures;

    if a.len() == 0 {
        assert(b.to_multiset().len() == 0);
        assert(b =~= a);
    } else {
        assert(a.to_multiset().len() == a.len());
        assert(b.to_multiset().len() == b.len());
        assert(b.len() == a.len());
        assert(a.to_multiset().contains(a[0]));
        assert(b.to_multiset().contains(a[0]));
        let j = choose|j: int| 0 <= j < b.len() && b[j] == a[0];
        assert(a.to_multiset().contains(b[0]));
        let i = choose|i: int| 0 <= i < a.len() && a[i] == b[0];
        if j > 0 {
            assert(lex_lt(b[0].0@, b[j].0@));
            if i > 0 {
                assert(lex_lt(a[0].0@, a[i].0@));
                lemma_lex_asymmetric(a[0].0@, a[i].0@);
            } else {
                lemma_lex_irreflexive(a[0].0@);
            }
        }
        assert(j == 0);
        let a1 = a.drop_first();
        let b1 = b.drop_first();
        assert(a.remove(0) =~= a1);
        assert(b.remove(0) =~= b1);
        assert(a1.to_multiset() == b1.to_multiset());
        lemma_sorted_version_unique(a1, b1);
        assert(a =~= seq![a[0]] + a1);
        assert(b =~= seq![b[0]] + b1);
    }
}

/// Sorts `props` by key, where the keys are distinct.
pub fn sort_properties(props: Vec<(String, String)>) -> (r: Vec<(String, String)>)
    requires
        distinct_keys(props@),
    ensures
        is_sorted_version(r@, props@),
{
    broadcast use vstd::seq_lib::group_to_multiset_ensures;

    let ghost input = props@;
    let mut rest = props;
    let mut out: Vec<(String, String)> = Vec::new();
    while rest.len() > 0
        invariant
            out@.to_multiset().add(rest@.to_multiset()) == input.to_multiset(),
            sorted_by_key(out@),
            distinct_keys(out@ + rest@),
        decreases rest@.len(),
    {
        let ghost rest_before = rest@;
        let ghost out_before = out@;
        let e = rest.pop().unwrap();
        assert(rest_before =~= rest@.push(e));
        let mut p: usize = 0;
        while p < out.len() && lex_less(&out[p].0, &e.0)
            invariant
                p <= out@.len(),
                forall|k: int| 0 <= k < p ==> lex_lt(out@[k].0@, e.0@),
            decreases out@.len() - p,
        {
            p = p + 1;
        }
        proof {
            // Every key at p or after sorts after e's key.
            assert forall|k: int| p <= k < out@.len() implies lex_lt(e.0@, out@[k].0@) by {
                assert(!lex_lt(out@[p as int].0@, e.0@));
                assert((out_before + rest_before)[p as int] == out@[p as int]);
                assert((out_before + rest_before)[(out_before.len() + rest@.len()) as int] == e);
                lemma_lex_total(out@[p as int].0@, e.0@);
                if k > p {
                    lemma_lex_transitive(e.0@, out@[p as int].0@, out@[k].0@);
                }
            }
        }
        out.insert(p, e);
        proof {
            assert(out@ == out_before.insert(p as int, e));
            assert(sorted_by_key(out@)) by {
                assert forall|i: int, j: int| 0 <= i < j < out@.len() implies lex_lt(
                    out@[i].0@,
                    out@[j].0@,
                ) by {
                    if j < p {
                        assert(out@[i] == out_before[i] && out@[j] == out_before[j]);
                    } else if j == p {
                        assert(out@[i] == out_before[i]);
                    } else if i < p {
                        assert(out@[i] == out_before[i] && out@[j] == out_before[j - 1]);
                    } else if i == p {
                        assert(out@[j] == out_before[j - 1]);
                    } else {
                        assert(out@[i] == out_before[i - 1] && out@[j] == out_before[j - 1]);
                    }
                }
            }
            vstd::seq_lib::to_multiset_insert(out_before, p as int, e);
            assert(out@.to_multiset() == out_before.to_multiset().insert(e));
            vstd::seq_lib::to_multiset_build(rest@, e);
            assert(rest_before.to_multiset() == rest@.to_multiset().insert(e));
            assert(out@.to_multiset().add(rest@.to_multiset()) =~= out_before.to_multiset().add(
                rest_before.to_multiset(),
            ));
            assert(distinct_keys(out@ + rest@)) by {
                let whole = out_before + rest_before;
                assert forall|i: int, j: int|
                    0 <= i < j < (out@ + rest@).len() implies (out@ + rest@)[i].0@ != (out@
                        + rest@)[j].0@ by {
                    let ix = |k: int|
                        if k < p {
                            k
                        } else if k == p {
                            (whole.len() - 1) as int
                        } else if k <= out_before.len() {
                            k - 1
                        } else {
                            k - 1
                        };
                    assert((out@ + rest@)[i] == whole[ix(i)]);
                    assert((out@ + rest@)[j] == whole[ix(j)]);
                    assert(ix(i) != ix(j));
                }
            }
        }
    }
    assert(rest@ =~= Seq::<(String, String)>::empty());
    assert(out@.to_multiset() =~= input.to_multiset());
    out
}

/// Whether `a` sorts strictly before `b`.
pub fn lex_less(a: &String, b: &String) -> (r: bool)
    ensures
        r == lex_lt(a@, b@),
{
    let x = chars_of(a.as_str());
    let y = chars_of(b.as_str());
    let mut i: usize = 0;
    assert(x@.skip(0) =~= x@);
    assert(y@.skip(0) =~= y@);
    while i < x.len() && i < y.len()
        invariant
            x@ == a@,
            y@ == b@,
            i <= x@.len(),
            i <= y@.len(),
            lex_lt(x@, y@) == lex_lt(x@.skip(i as int), y@.skip(i as int)),
        decreases x@.len() - i,
    {
        let c = x[i];
        let d = y[i];
        if c != d {
            let ghost xs = x@.skip(i as int);
            let ghost ys = y@.skip(i as int);
            assert(xs[0] == c);
            assert(ys[0] == d);
            assert(xs.len() > 0 && ys.len() > 0);
            let cu = c as u32;
            let du = d as u32;
            let r = cu < du;
            assert(lex_lt(xs, ys) == r);
            assert(lex_lt(a@, b@) == r);
            return r;
        }
        assert(x@.skip(i as int).drop_first() =~= x@.skip(i + 1));
        assert(y@.skip(i as int).drop_first() =~= y@.skip(i + 1));
        i = i + 1;
    }
    i < y.len()
}

fn append_str(v: &mut Vec<char>, s: &str)
    ensures
        final(v)@ == old(v)@ + s@,
{
    let c = chars_of(s);
    let ghost start = v@;
    for i in 0..c.len()
        invariant
            v@ == start + c@.take(i as int),
    {
        v.push(c[i]);
        assert(v@ =~= start + c@.take(i + 1));
    }
    assert(c@.take(c@.len() as int) =~= c@);
}

/// The variant key of a block whose properties are `props`, names and
/// values, with distinct names.
pub fn build_variant_key(props: Vec<(String, String)>) -> (r: String)
    requires
        distinct_keys(props@),
    ensures
        r@ == variant_key(props@),
{
    let ghost input = props@;
    let sorted = sort_properties(props);
    let mut v: Vec<char> = Vec::new();
    for i in 0..sorted.len()
        invariant
            v@ == key_text(sorted@.take(i as int)),
    {
        assert(sorted@.take(i + 1).drop_last() =~= sorted@.take(i as int));
        if i > 0 {
            append_str(&mut v, ",");
        }
        append_str(&mut v, sorted[i].0.as_str());
        append_str(&mut v, "=");
        append_str(&mut v, sorted[i].1.as_str());
        if i == 0 {
            assert(v@ =~= key_text(sorted@.take(1)));
        } else {
            assert(v@ =~= key_text(sorted@.take(i + 1)));
        }
    }
    assert(sorted@.take(sorted@.len() as int) =~= sorted@);
    proof {
        let s = sorted_props(input);
        assert(is_sorted_version(s, input));
        lemma_sorted_version_unique(s, sorted@);
    }
    string_of(&v)
}

/// The model a block state is drawn with, among the variants of its block:
/// the only one, else the variant of its properties' key, else the variant
/// with the empty key, else the first variant.
pub open spec fn choose_variant(variants: Seq<(String, BakedModel)>, key: Seq<char>) -> Option<
    BakedModel,
> {
    if variants.len() == 1 {
        Some(variants[0].1)
    } else {
        match key_index(variants, key) {
            Some(j) => Some(variants[j].1),
            None => match key_index(variants, Seq::empty()) {
                Some(j) => Some(variants[j].1),
                None => if variants.len() > 0 {
                    Some(variants[0].1)
                } else {
                    None
                },
            },
        }
    }
}

/// The model a block is drawn with: none where the block has no models.
pub open spec fn spec_baked_model(
    baked: Seq<(String, Vec<(String, BakedModel)>)>,
    block: Seq<char>,
    props: Seq<(String, String)>,
) -> Option<BakedModel> {
    match key_index(baked, block) {
        Some(i) => choose_variant(baked[i].1@, variant_key(props)),
        None => None,
    }
}

impl BlockRegistry {
    /// The model the block named `block` is drawn with, given the names and
    /// values of its state's properties.
    pub fn get_baked_model(&self, block: &str, props: Vec<(String, String)>) -> (r: Option<
        &BakedModel,
    >)
        requires
            distinct_keys(props@),
        ensures
            match r {
                Some(m) => spec_baked_model(self.model_entries(), block@, props@) == Some(*m),
                None => spec_baked_model(self.model_entries(), block@, props@) is None,
            },
    {
        let i = match find_key(&self.baked, block) {
            Some(i) => i,
            None => return None,
        };
        let variants = &self.baked[i].1;
        if variants.len() == 1 {
            return Some(&variants[0].1);
        }
        let key = build_variant_key(props);
        if let Some(j) = find_key(variants, key.as_str()) {
            return Some(&variants[j].1);
        }
        if let Some(j) = find_key(variants, "") {
            proof {
                reveal_strlit("");
            }
            assert(""@ =~= Seq::<char>::empty());
            return Some(&variants[j].1);
        }
        proof {
            reveal_strlit("");
        }
        assert(""@ =~= Seq::<char>::empty());
        if variants.len() > 0 {
            Some(&variants[0].1)
        } else {
            None
        }
    }

    /// Whether the block state fills its whole cube with an opaque model:
    /// never for air, else as its model says, and not where it has none.
    pub fn is_opaque_full_cube(&self, is_air: bool, block: &str, props: Vec<(String, String)>) -> (r:
        bool)
        requires
            distinct_keys(props@),
        ensures
            r == (!is_air && match spec_baked_model(self.model_entries(), block@, props@) {
                Some(m) => m.is_full_cube,
                None => false,
            }),
    {
        if is_air {
            return false;
        }
        match self.get_baked_model(block, props) {
            Some(m) => m.is_full_cube,
            None => false,
        }
    }
}

/// The textures of a block's faces: top, bottom, north, south, east, west,
/// then the side overlay where there is one.
pub open spec fn face_names(f: FaceTexturesView) -> Seq<Seq<char>> {
    seq![f.top, f.bottom, f.north, f.south, f.east, f.west] + match f.side_overlay {
        Some(o) => seq![o],
        None => Seq::empty(),
    }
}

/// The face textures of every block, block by block.
pub open spec fn all_face_names(entries: Seq<(String, FaceTextures)>) -> Seq<Seq<char>>
    decreases entries.len(),
{
    if entries.len() == 0 {
        Seq::empty()
    } else {
        all_face_names(entries.drop_last()) + face_names(entries.last().1@)
    }
}

/// The quad textures of every variant, variant by variant.
pub open spec fn variant_names(variants: Seq<(String, BakedModel)>) -> Seq<Seq<char>>
    decreases variants.len(),
{
    if variants.len() == 0 {
        Seq::empty()
    } else {
        variant_names(variants.drop_last()) + variants.last().1.quad_textures@.map_values(
            |t: String| t@,
        )
    }
}

/// The quad textures of every block's variants, block by block.
pub open spec fn all_model_names(baked: Seq<(String, Vec<(String, BakedModel)>)>) -> Seq<Seq<char>>
    decreases baked.len(),
{
    if baked.len() == 0 {
        Seq::empty()
    } else {
        all_model_names(baked.drop_last()) + variant_names(baked.last().1@)
    }
}

fn push_name(out: &mut Vec<String>, s: &String)
    ensures
        strings_view(final(out)@) == strings_view(old(out)@).push(s@),
{
    let ghost before = strings_view(out@);
    out.push(s.clone());
    assert(strings_view(out@) =~= before.push(s@));
}

impl BlockRegistry {
    /// Every texture the registry names: the face textures of each block,
    /// then the quad textures of each model variant.
    pub fn texture_names(&self) -> (names: Vec<String>)
        ensures
            strings_view(names@) == all_face_names(self.texture_entries()) + all_model_names(
                self.model_entries(),
            ),
    {
        let mut out: Vec<String> = Vec::new();
        for i in 0..self.textures.len()
            invariant
                strings_view(out@) == all_face_names(self.textures@.take(i as int)),
        {
            assert(self.textures@.take(i + 1).drop_last() =~= self.textures@.take(i as int));
            let ghost before = strings_view(out@);
            let f = &self.textures[i].1;
            push_name(&mut out, &f.top);
            push_name(&mut out, &f.bottom);
            push_name(&mut out, &f.north);
            push_name(&mut out, &f.south);
            push_name(&mut out, &f.east);
            push_name(&mut out, &f.west);
            if let Some(o) = &f.side_overlay {
                push_name(&mut out, o);
            }
            assert(strings_view(out@) =~= before + face_names(f@));
        }
        assert(self.textures@.take(self.textures@.len() as int) =~= self.textures@);
        let ghost faces = strings_view(out@);
        for i in 0..self.baked.len()
            invariant
                strings_view(out@) == faces + all_model_names(self.baked@.take(i as int)),
        {
            assert(self.baked@.take(i + 1).drop_last() =~= self.baked@.take(i as int));
            let ghost before = strings_view(out@);
            let variants = &self.baked[i].1;
            for j in 0..variants.len()
                invariant
                    strings_view(out@) == before + variant_names(variants@.take(j as int)),
            {
                assert(variants@.take(j + 1).drop_last() =~= variants@.take(j as int));
                let ghost mid = strings_view(out@);
                let quads = &variants[j].1.quad_textures;
                for k in 0..quads.len()
                    invariant
                        strings_view(out@) == mid + quads@.take(k as int).map_values(|t: String| t@),
                {
                    push_name(&mut out, &quads[k]);
                    assert(quads@.take(k + 1).map_values(|t: String| t@) =~= quads@.take(k as int).map_values(|t: String| t@).push(quads@[k as int]@));
                }
                assert(quads@.take(quads@.len() as int) =~= quads@);
            }
            assert(variants@.take(variants@.len() as int) =~= variants@);
        }
        assert(self.baked@.take(self.baked@.len() as int) =~= self.baked@);
        out
    }
}

} // verus!
