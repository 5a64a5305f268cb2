//! Layout of the player list overlay (the tab list): the grid of player rows,
//! the wrapped header and footer, and the sprite that shows each ping.
//!
//! Coordinates are in unscaled GUI pixels; the caller multiplies them by the
//! GUI scale. Text widths come from a measuring function that the caller
//! supplies: it returns the width of a string in whole GUI pixels, rounded up.

use vstd::prelude::*;
use crate::sprites::SpriteId;
use crate::text::{chars_of, join_with, lemma_join_split, split_chars, split_on, string_of};

verus! {

/// A column holds at most this many player rows.
pub const MAX_ROWS_PER_COL: usize = 20;

/// Width of the head icon column in front of a name.
pub const HEAD_COL_W: i128 = 9;

/// Height of one text line.
pub const LINE_HEIGHT: i128 = 9;

/// The game mode number of spectators.
pub const SPECTATOR_GAME_MODE: u8 = 3;

/// One listed player, as the overlay reads it.
pub struct TabListPlayer {
    pub name: String,
    pub display_name: Option<String>,
    pub game_mode: u8,
    pub latency: i32,
}

/// The colours the overlay paints with.
#[derive(Clone, Copy, PartialEq, Eq, Debug, Structural)]
pub enum OverlayColor {
    /// Half-transparent black behind the whole list.
    Backdrop,
    /// Faint white behind one player row.
    Row,
    /// Opaque white text.
    Name,
    /// Dimmed text for spectators.
    Spectator,
}

/// One element of the overlay, in GUI pixels.
pub enum OverlayElement {
    Rect { x: i128, y: i128, w: i128, h: i128, color: OverlayColor },
    Text { x: i128, y: i128, text: String, color: OverlayColor },
    Image { x: i128, y: i128, w: i128, h: i128, sprite: SpriteId },
}

/// The mathematical value of an [`OverlayElement`].
pub enum ElementView {
    Rect { x: int, y: int, w: int, h: int, color: OverlayColor },
    Text { x: int, y: int, text: Seq<char>, color: OverlayColor },
    Image { x: int, y: int, w: int, h: int, sprite: SpriteId },
}

impl View for OverlayElement {
    type V = ElementView;

    open spec fn view(&self) -> ElementView {
        match self {
            OverlayElement::Rect { x, y, w, h, color } => ElementView::Rect {
                x: *x as int,
                y: *y as int,
                w: *w as int,
                h: *h as int,
                color: *color,
            },
            OverlayElement::Text { x, y, text, color } => ElementView::Text {
                x: *x as int,
                y: *y as int,
                text: text@,
                color: *color,
            },
            OverlayElement::Image { x, y, w, h, sprite } => ElementView::Image {
                x: *x as int,
                y: *y as int,
                w: *w as int,
                h: *h as int,
                sprite: *sprite,
            },
        }
    }
}

/// The views of a vector of elements.
pub open spec fn elements_view(v: Seq<OverlayElement>) -> Seq<ElementView> {
    v.map_values(|e: OverlayElement| e@)
}

/// The views of a vector of strings.
pub open spec fn strings_view(v: Seq<String>) -> Seq<Seq<char>> {
    v.map_values(|s: String| s@)
}

// ---------------------------------------------------------------------------
// Measuring text

/// `f` may be called on any string and its result depends on the characters
/// of the string alone.
pub open spec fn measures_by_view<F: Fn(&str) -> i32>(f: F) -> bool {
    &&& forall|t: &str| call_requires(f, (t,))
    &&& forall|t1: &str, t2: &str, a: i32, b: i32|
        t1@ == t2@ && call_ensures(f, (t1,), a) && call_ensures(f, (t2,), b) ==> a == b
}

/// `f` measures `w` for a string with the characters `s`.
pub open spec fn measured<F: Fn(&str) -> i32>(f: F, s: Seq<char>, w: i32) -> bool {
    exists|t: &str| t@ == s && call_ensures(f, (t,), w)
}

/// The width that `f` gives the characters `s`.
pub open spec fn width_of<F: Fn(&str) -> i32>(f: F, s: Seq<char>) -> int {
    (choose|w: i32| measured(f, s, w)) as int
}

/// The widths that `f` gives each of `lines`.
pub open spec fn widths_of<F: Fn(&str) -> i32>(f: F, lines: Seq<Seq<char>>) -> Seq<int> {
    lines.map_values(|l: Seq<char>| width_of(f, l))
}

fn measure<F: Fn(&str) -> i32>(f: &F, s: &String) -> (w: i32)
    requires
        measures_by_view(*f),
    ensures
        w == width_of(*f, s@),
{
    let w = f(s.as_str());
    assert(measured(*f, s@, w));
    w
}

fn measure_all<F: Fn(&str) -> i32>(f: &F, lines: &Vec<String>) -> (ws: Vec<i32>)
    requires
        measures_by_view(*f),
    ensures
        ws@.len() == lines@.len(),
        forall|i: int| 0 <= i < ws@.len() ==> ws@[i] as int == widths_of(*f, strings_view(lines@))[i],
{
    let mut ws: Vec<i32> = Vec::new();
    for i in 0..lines.len()
        invariant
            measures_by_view(*f),
            ws@.len() == i,
            forall|j: int| 0 <= j < i ==> ws@[j] as int == width_of(*f, lines@[j]@),
    {
        let w = measure(f, &lines[i]);
        ws.push(w);
    }
    ws
}

// ---------------------------------------------------------------------------
// Integer helpers

/// Division that rounds toward zero, as Rust's `/` on signed integers does.
pub open spec fn tdiv(a: int, b: int) -> int {
    if a >= 0 {
        a / b
    } else {
        -((-a) / b)
    }
}

/// The largest of `init` and the elements of `s`.
pub open spec fn max_from(init: int, s: Seq<int>) -> int
    decreases s.len(),
{
    if s.len() == 0 {
        init
    } else {
        let m = max_from(init, s.drop_last());
        if s.last() > m {
            s.last()
        } else {
            m
        }
    }
}

proof fn lemma_max_from_concat(init: int, a: Seq<int>, b: Seq<int>)
    ensures
        max_from(init, a + b) == max_from(max_from(init, a), b),
    decreases b.len(),
{
    if b.len() > 0 {
        assert((a + b).drop_last() =~= a + b.drop_last());
        lemma_max_from_concat(init, a, b.drop_last());
    } else {
        assert(a + b =~= a);
    }
}

proof fn lemma_max_from_ge(init: int, s: Seq<int>)
    ensures
        max_from(init, s) >= init,
        forall|i: int| 0 <= i < s.len() ==> max_from(init, s) >= s[i],
        max_from(init, s) == init || exists|i: int| 0 <= i < s.len() && max_from(init, s) == s[i],
    decreases s.len(),
{
    if s.len() > 0 {
        lemma_max_from_ge(init, s.drop_last());
        let m = max_from(init, s.drop_last());
        if m != init && s.last() <= m {
            let i = choose|i: int| 0 <= i < s.drop_last().len() && m == s.drop_last()[i];
            assert(s[i] == m);
        }
        if s.last() > m {
            assert(s[s.len() - 1] == s.last());
        }
        assert forall|i: int| 0 <= i < s.len() implies max_from(init, s) >= s[i] by {
            if i < s.len() - 1 {
                assert(s[i] == s.drop_last()[i]);
            }
        }
    }
}

fn tdiv_exec(a: i128, b: i128) -> (r: i128)
    requires
        b >= 1,
        a > i128::MIN,
    ensures
        r == tdiv(a as int, b as int),
{
    if a >= 0 {
        a / b
    } else {
        -((-a) / b)
    }
}

proof fn lemma_tdiv_bounds(a: int, b: int)
    requires
        b >= 1,
    ensures
        a >= 0 ==> 0 <= tdiv(a, b) <= a,
        a < 0 ==> a <= tdiv(a, b) <= 0,
{
    if a >= 0 {
        assert(0 <= a / b <= a) by (nonlinear_arith)
            requires
                a >= 0,
                b >= 1,
        ;
    } else {
        let p = -a;
        assert(0 <= p / b <= p) by (nonlinear_arith)
            requires
                p >= 0,
                b >= 1,
        ;
    }
}

/// The largest of `init` and the widths `ws`.
fn max_width_from(init: i128, ws: &Vec<i32>) -> (m: i128)
    ensures
        m == max_from(init as int, ws@.map_values(|w: i32| w as int)),
{
    let mut m = init;
    let ghost s = ws@.map_values(|w: i32| w as int);
    for i in 0..ws.len()
        invariant
            s == ws@.map_values(|w: i32| w as int),
            m == max_from(init as int, s.take(i as int)),
    {
        assert(s.take(i + 1).drop_last() =~= s.take(i as int));
        let w = ws[i] as i128;
        if w > m {
            m = w;
        }
    }
    assert(s.take(ws@.len() as int) =~= s);
    m
}

// ---------------------------------------------------------------------------
// Names and pings

/// The text shown for a player: its display name where it has one, else its
/// name.
pub open spec fn spec_display_name(p: TabListPlayer) -> Seq<char> {
    match p.display_name {
        Some(d) => d@,
        None => p.name@,
    }
}

/// The text shown for a player: its display name where it has one, else its
/// name.
pub fn display_name_for(p: &TabListPlayer) -> (r: String)
    ensures
        r@ == spec_display_name(*p),
{
    match &p.display_name {
        Some(d) => d.clone(),
        None => p.name.clone(),
    }
}

/// The ping bars for a latency in milliseconds: unknown below zero, then five
/// bars below 150, four below 300, three below 600, two below 1000, one above.
pub open spec fn spec_ping_sprite(latency: i32) -> SpriteId {
    if latency < 0 {
        SpriteId::PingUnknown
    } else if latency < 150 {
        SpriteId::Ping5
    } else if latency < 300 {
        SpriteId::Ping4
    } else if latency < 600 {
        SpriteId::Ping3
    } else if latency < 1000 {
        SpriteId::Ping2
    } else {
        SpriteId::Ping1
    }
}

/// The ping bars for a latency in milliseconds.
pub fn ping_sprite(latency: i32) -> (s: SpriteId)
    ensures
        s == spec_ping_sprite(latency),
{
    if latency < 0 {
        SpriteId::PingUnknown
    } else if latency < 150 {
        SpriteId::Ping5
    } else if latency < 300 {
        SpriteId::Ping4
    } else if latency < 600 {
        SpriteId::Ping3
    } else if latency < 1000 {
        SpriteId::Ping2
    } else {
        SpriteId::Ping1
    }
}

// ---------------------------------------------------------------------------
// The grid of players

/// `a / b` rounded up, for `a >= 0` and `b >= 1`.
pub open spec fn ceil_div(a: int, b: int) -> int {
    a / b + if a % b != 0 {
        1int
    } else {
        0int
    }
}

/// `slots` players fit in `cols` columns of at most twenty rows.
pub open spec fn grid_fits(slots: int, cols: int) -> bool {
    ceil_div(slots, cols) <= MAX_ROWS_PER_COL
}

/// `cols` is the fewest columns in which `slots` players fit.
pub open spec fn is_grid_cols(slots: int, cols: int) -> bool {
    &&& cols >= 1
    &&& grid_fits(slots, cols)
    &&& forall|c: int| 1 <= c < cols ==> !grid_fits(slots, c)
}

/// The number of columns of the player grid: the fewest in which every
/// player fits.
pub open spec fn grid_cols(slots: int) -> int {
    choose|c: int| is_grid_cols(slots, c)
}

/// The number of rows of the player grid: the players spread evenly over the
/// columns, rounded up.
pub open spec fn grid_rows(slots: int) -> int {
    ceil_div(slots, grid_cols(slots))
}

proof fn lemma_ceil_div_small(a: int, b: int)
    requires
        0 <= a <= b,
        b >= 1,
    ensures
        ceil_div(a, b) <= 1,
{
    if a < b {
        vstd::arithmetic::div_mod::lemma_small_div_converse(a, b);
        assert(a / b == 0) by (nonlinear_arith)
            requires
                0 <= a < b,
        ;
    } else {
        assert(a / b == 1 && a % b == 0) by (nonlinear_arith)
            requires
                a == b,
                b >= 1,
        ;
    }
}

proof fn lemma_is_grid_cols_unique(slots: int, c1: int, c2: int)
    requires
        is_grid_cols(slots, c1),
        is_grid_cols(slots, c2),
    ensures
        c1 == c2,
{
}

/// The rows and columns of the player grid.
pub fn grid_shape(slots: usize) -> (r: (usize, usize))
    ensures
        r.1 as int == grid_cols(slots as int),
        r.0 as int == grid_rows(slots as int),
        is_grid_cols(slots as int, r.1 as int),
{
    let mut rows: usize = slots;
    let mut cols: usize = 1;
    assert(slots as int / 1 == slots as int && slots as int % 1 == 0) by (nonlinear_arith);
    while rows > MAX_ROWS_PER_COL
        invariant
            1 <= cols <= slots || (cols == 1),
            rows as int == ceil_div(slots as int, cols as int),
            forall|c: int| 1 <= c < cols ==> !grid_fits(slots as int, c),
        decreases slots - cols,
    {
        if cols >= slots {
            proof {
                lemma_ceil_div_small(slots as int, cols as int);
            }
            assert(false);
        }
        cols = cols + 1;
        assert(slots as int / cols as int <= slots as int / 2) by (nonlinear_arith)
            requires
                cols >= 2,
                slots >= 0,
        ;
        rows = slots / cols + if slots % cols != 0 {
            1
        } else {
            0
        };
    }
    assert(is_grid_cols(slots as int, cols as int));
    proof {
        let c = grid_cols(slots as int);
        assert(is_grid_cols(slots as int, c));
        lemma_is_grid_cols_unique(slots as int, c, cols as int);
    }
    (rows, cols)
}

/// Law: every player has a cell of the grid, and no column is longer than
/// twenty rows.
pub proof fn lemma_grid_holds_every_player(slots: nat)
    ensures
        grid_rows(slots as int) * grid_cols(slots as int) >= slots,
        grid_rows(slots as int) <= MAX_ROWS_PER_COL,
        grid_cols(slots as int) >= 1,
{
    let c0 = if slots == 0 { 1 } else { slots as int };
    assert(exists|c: int| is_grid_cols(slots as int, c)) by {
        lemma_fewest_fitting_exists(slots as int, c0);
    }
    let cols = grid_cols(slots as int);
    assert(is_grid_cols(slots as int, cols));
    let s = slots as int;
    assert(ceil_div(s, cols) * cols >= s) by (nonlinear_arith)
        requires
            cols >= 1,
            s >= 0,
    {
        assert(s == cols * (s / cols) + s % cols);
        assert(0 <= s % cols < cols);
    }
}

proof fn lemma_fewest_fitting_exists(slots: int, c0: int)
    requires
        slots >= 0,
        c0 >= 1,
        c0 >= slots,
    ensures
        exists|c: int| is_grid_cols(slots, c),
    decreases c0,
{
    lemma_ceil_div_small(slots, c0);
    if forall|c: int| 1 <= c < c0 ==> !grid_fits(slots, c) {
        assert(is_grid_cols(slots, c0));
    } else {
        let c1 = choose|c: int| 1 <= c < c0 && grid_fits(slots, c);
        lemma_fewest_below(slots, c1);
    }
}

proof fn lemma_fewest_below(slots: int, c1: int)
    requires
        c1 >= 1,
        grid_fits(slots, c1),
    ensures
        exists|c: int| is_grid_cols(slots, c),
    decreases c1,
{
    if forall|c: int| 1 <= c < c1 ==> !grid_fits(slots, c) {
        assert(is_grid_cols(slots, c1));
    } else {
        let c2 = choose|c: int| 1 <= c < c1 && grid_fits(slots, c);
        lemma_fewest_below(slots, c2);
    }
}

// ---------------------------------------------------------------------------
// Wrapping text

/// Greedy wrapping of the words of one line: a word joins the current line,
/// after a space, when the joined text measures at most `max_width`; else the
/// current line is finished and the word starts the next one. A word that
/// meets an empty current line becomes it, without a space.
pub open spec fn wrap_words<F: Fn(&str) -> i32>(
    words: Seq<Seq<char>>,
    cur: Seq<char>,
    f: F,
    max_width: int,
) -> Seq<Seq<char>>
    decreases words.len(),
{
    if words.len() == 0 {
        seq![cur]
    } else {
        let w = words[0];
        let rest = words.drop_first();
        if cur.len() == 0 {
            wrap_words(rest, w, f, max_width)
        } else if width_of(f, cur + seq![' '] + w) <= max_width {
            wrap_words(rest, cur + seq![' '] + w, f, max_width)
        } else {
            seq![cur] + wrap_words(rest, w, f, max_width)
        }
    }
}

/// The wrapped lines of each of `raws` in turn; each is split into words at
/// every space.
pub open spec fn wrap_lines<F: Fn(&str) -> i32>(raws: Seq<Seq<char>>, f: F, max_width: int) -> Seq<
    Seq<char>,
>
    decreases raws.len(),
{
    if raws.len() == 0 {
        Seq::empty()
    } else {
        wrap_lines(raws.drop_last(), f, max_width) + wrap_words(
            split_on(raws.last(), ' '),
            Seq::empty(),
            f,
            max_width,
        )
    }
}

/// The lines of `text` wrapped to `max_width`: it is split at every line
/// break, and each piece is wrapped on its own.
pub open spec fn wrap_spec<F: Fn(&str) -> i32>(text: Seq<char>, f: F, max_width: int) -> Seq<
    Seq<char>,
> {
    wrap_lines(split_on(text, '\n'), f, max_width)
}

fn append_chars(dst: &mut Vec<char>, src: &Vec<char>)
    ensures
        final(dst)@ == old(dst)@ + src@,
{
    let ghost start = dst@;
    for i in 0..src.len()
        invariant
            dst@ == start + src@.take(i as int),
    {
        dst.push(src[i]);
        assert(start + src@.take(i + 1) =~= (start + src@.take(i as int)).push(src@[i as int]));
    }
    assert(src@.take(src@.len() as int) =~= src@);
}

/// Wraps each line of `text` so that it measures at most `max_width`, where
/// the words allow it.
pub fn wrap_text<F: Fn(&str) -> i32>(text: &str, max_width: i128, text_width: &F) -> (lines: Vec<
    String,
>)
    requires
        measures_by_view(*text_width),
    ensures
        strings_view(lines@) == wrap_spec(text@, *text_width, max_width as int),
{
    let ghost f = *text_width;
    let ghost mw = max_width as int;
    let chars = chars_of(text);
    let raws = split_chars(&chars, '\n');
    let ghost rv = raws@.map_values(|p: Vec<char>| p@);
    let mut lines: Vec<String> = Vec::new();
    for k in 0..raws.len()
        invariant
            measures_by_view(*text_width),
            f == *text_width,
            mw == max_width as int,
            rv == raws@.map_values(|p: Vec<char>| p@),
            strings_view(lines@) == wrap_lines(rv.take(k as int), f, mw),
    {
        let words = split_chars(&raws[k], ' ');
        let ghost wv = words@.map_values(|p: Vec<char>| p@);
        let ghost base = strings_view(lines@);
        let ghost done: Seq<Seq<char>> = Seq::empty();
        let mut cur: Vec<char> = Vec::new();
        assert(wv.skip(0) =~= wv);
        for j in 0..words.len()
            invariant
                measures_by_view(*text_width),
                f == *text_width,
                mw == max_width as int,
                wv == words@.map_values(|p: Vec<char>| p@),
                strings_view(lines@) == base + done,
                done + wrap_words(wv.skip(j as int), cur@, f, mw) == wrap_words(
                    wv,
                    Seq::empty(),
                    f,
                    mw,
                ),
        {
            let word = &words[j];
            assert(wv.skip(j as int)[0] == word@);
            assert(wv.skip(j as int).drop_first() =~= wv.skip(j + 1));
            if cur.len() == 0 {
                cur = word.clone();
                assert(cur@ == word@);
            } else {
                let mut cand = cur.clone();
                cand.push(' ');
                append_chars(&mut cand, word);
                let cand_str = string_of(&cand);
                let w = measure(text_width, &cand_str);
                assert(cand@ =~= cur@ + seq![' '] + word@);
                if (w as i128) <= max_width {
                    cur = cand;
                } else {
                    let finished = string_of(&cur);
                    let ghost lv = strings_view(lines@);
                    lines.push(finished);
                    assert(strings_view(lines@) =~= lv.push(finished@));
                    proof {
                        done = done.push(finished@);
                    }
                    assert(done.drop_last() + (seq![finished@] + wrap_words(wv.skip(j + 1), word@, f, mw)) =~= done + wrap_words(wv.skip(j + 1), word@, f, mw));
                    cur = word.clone();
                }
            }
        }
        assert(wv.skip(words@.len() as int) =~= Seq::<Seq<char>>::empty());
        let last = string_of(&cur);
        let ghost lv = strings_view(lines@);
        lines.push(last);
        assert(strings_view(lines@) =~= lv.push(last@));
        assert(rv.take(k + 1).drop_last() =~= rv.take(k as int));
        assert(rv.take(k + 1).last() == raws@[k as int]@);
        assert(strings_view(lines@) =~= wrap_lines(rv.take(k + 1), f, mw));
    }
    assert(rv.take(raws@.len() as int) =~= rv);
    lines
}

// ---------------------------------------------------------------------------
// The overlay

/// A block of centred text lines below `top`, on a backdrop as wide as
/// `max_line_w`, centred on `cx`.
pub open spec fn text_block(
    lines: Seq<Seq<char>>,
    widths: Seq<int>,
    top: int,
    cx: int,
    max_line_w: int,
) -> Seq<ElementView> {
    seq![
        ElementView::Rect {
            x: cx - tdiv(max_line_w, 2) - 1,
            y: top - 1,
            w: (cx + tdiv(max_line_w, 2) + 1) - (cx - tdiv(max_line_w, 2) - 1),
            h: (top + lines.len() * LINE_HEIGHT) - (top - 1),
            color: OverlayColor::Backdrop,
        },
    ] + Seq::new(
        lines.len(),
        |i: int|
            ElementView::Text {
                x: cx - tdiv(widths[i], 2),
                y: top + i * LINE_HEIGHT,
                text: lines[i],
                color: OverlayColor::Name,
            },
    )
}

/// The four elements of the `i`-th player: its row, head, name and ping.
/// Players fill the grid column by column.
pub open spec fn player_elements(
    p: TabListPlayer,
    i: int,
    rows: int,
    slot_width: int,
    xxo: int,
    yyo: int,
) -> Seq<ElementView> {
    let col = i / rows;
    let row = i % rows;
    let row_left = xxo + col * slot_width + col * 5;
    let yo = yyo + row * 9;
    seq![
        ElementView::Rect {
            x: row_left,
            y: yo,
            w: (row_left + slot_width) - row_left,
            h: (yo + 8) - yo,
            color: OverlayColor::Row,
        },
        ElementView::Image { x: row_left, y: yo, w: 8, h: 8, sprite: SpriteId::SteveHead },
        ElementView::Text {
            x: row_left + HEAD_COL_W,
            y: yo,
            text: spec_display_name(p),
            color: if p.game_mode == SPECTATOR_GAME_MODE {
                OverlayColor::Spectator
            } else {
                OverlayColor::Name
            },
        },
        ElementView::Image {
            x: row_left + slot_width - 11,
            y: yo,
            w: 10,
            h: 8,
            sprite: spec_ping_sprite(p.latency),
        },
    ]
}

/// The elements of the first `n` players.
pub open spec fn players_view(
    players: Seq<TabListPlayer>,
    n: int,
    rows: int,
    slot_width: int,
    xxo: int,
    yyo: int,
) -> Seq<ElementView>
    decreases n,
{
    if n <= 0 {
        Seq::empty()
    } else {
        players_view(players, n - 1, rows, slot_width, xxo, yyo) + player_elements(
            players[n - 1],
            n - 1,
            rows,
            slot_width,
            xxo,
            yyo,
        )
    }
}

/// The views of an optional string.
pub open spec fn opt_view(s: Option<String>) -> Option<Seq<char>> {
    match s {
        Some(t) => Some(t@),
        None => None,
    }
}

/// The wrapped lines of an optional text; none where there is no text.
pub open spec fn wrapped_or_none<F: Fn(&str) -> i32>(t: Option<Seq<char>>, f: F, max_width: int) -> Seq<
    Seq<char>,
> {
    match t {
        Some(s) => wrap_spec(s, f, max_width),
        None => Seq::empty(),
    }
}

/// The width of one grid cell: the widest name with its head and ping
/// columns, in as many columns as the grid has, but no wider than the screen
/// less a 50 pixel margin, and at least one pixel.
pub open spec fn spec_slot_width(cols: int, max_name_w: int, gw: int) -> int {
    let total = cols * (HEAD_COL_W + max_name_w + 13);
    let capped = if total < gw - 50 {
        total
    } else {
        gw - 50
    };
    let w = tdiv(capped, cols);
    if w > 1 {
        w
    } else {
        1
    }
}

/// The texts shown for `players`.
pub open spec fn names_view(players: Seq<TabListPlayer>) -> Seq<Seq<char>> {
    players.map_values(|p: TabListPlayer| spec_display_name(p))
}

/// The widest shown name of `players`, which are at least one.
pub open spec fn spec_max_name_w<F: Fn(&str) -> i32>(players: Seq<TabListPlayer>, f: F) -> int {
    let ws = widths_of(f, names_view(players));
    max_from(ws[0], ws)
}

/// The width of the whole grid: its cells and a gap of five pixels between
/// columns.
pub open spec fn spec_grid_w(slot_width: int, cols: int) -> int {
    slot_width * cols + (cols - 1) * 5
}

/// The widest line the margin allows when wrapping header and footer.
pub open spec fn spec_wrap_w(gw: int) -> int {
    if gw - 50 > 1 {
        gw - 50
    } else {
        1
    }
}

/// The width of the backdrop: the grid or the widest header or footer line,
/// whichever is wider.
pub open spec fn spec_max_line_w<F: Fn(&str) -> i32>(
    grid_w: int,
    header: Option<Seq<char>>,
    footer: Option<Seq<char>>,
    gw: int,
    f: F,
) -> int {
    let hl = wrapped_or_none(header, f, spec_wrap_w(gw));
    let fl = wrapped_or_none(footer, f, spec_wrap_w(gw));
    max_from(grid_w, widths_of(f, hl) + widths_of(f, fl))
}

/// The backdrop behind the player grid, from `yyo - 1` down over `rows` rows.
pub open spec fn grid_backdrop(cx: int, max_line_w: int, yyo: int, rows: int) -> ElementView {
    ElementView::Rect {
        x: cx - tdiv(max_line_w, 2) - 1,
        y: yyo - 1,
        w: (cx + tdiv(max_line_w, 2) + 1) - (cx - tdiv(max_line_w, 2) - 1),
        h: (yyo + rows * 9) - (yyo - 1),
        color: OverlayColor::Backdrop,
    }
}

/// The overlay for `players` on a screen `gw` GUI pixels wide, with an
/// optional header and footer, measured by `f`: the header block, the
/// backdrop of the grid, the players, and the footer block, in that order.
pub open spec fn overlay_spec<F: Fn(&str) -> i32>(
    players: Seq<TabListPlayer>,
    header: Option<Seq<char>>,
    footer: Option<Seq<char>>,
    gw: int,
    f: F,
) -> Seq<ElementView> {
    if players.len() == 0 {
        Seq::empty()
    } else {
        let slots = players.len() as int;
        let cols = grid_cols(slots);
        let rows = grid_rows(slots);
        let slot_width = spec_slot_width(cols, spec_max_name_w(players, f), gw);
        let grid_w = spec_grid_w(slot_width, cols);
        let xxo = tdiv(gw, 2) - tdiv(grid_w, 2);
        let cx = tdiv(gw, 2);
        let hl = wrapped_or_none(header, f, spec_wrap_w(gw));
        let fl = wrapped_or_none(footer, f, spec_wrap_w(gw));
        let mlw = spec_max_line_w(grid_w, header, footer, gw, f);
        let yyo = if header is Some {
            10 + hl.len() * LINE_HEIGHT + 1
        } else {
            10
        };
        let head = if header is Some {
            text_block(hl, widths_of(f, hl), 10, cx, mlw)
        } else {
            Seq::empty()
        };
        let foot = if footer is Some {
            text_block(fl, widths_of(f, fl), yyo + rows * 9 + 1, cx, mlw)
        } else {
            Seq::empty()
        };
        head + seq![grid_backdrop(cx, mlw, yyo, rows)] + players_view(
            players,
            slots,
            rows,
            slot_width,
            xxo,
            yyo,
        ) + foot
    }
}

const BOUND: i128 = 0x1_0000_0000_0000_0000_0000_0000;

fn push_text_block(
    out: &mut Vec<OverlayElement>,
    lines: &Vec<String>,
    widths: &Vec<i32>,
    top: i128,
    cx: i128,
    max_line_w: i128,
)
    requires
        widths@.len() == lines@.len(),
        0 <= top <= BOUND,
        -BOUND <= cx <= BOUND,
        -BOUND <= max_line_w <= BOUND,
    ensures
        elements_view(final(out)@) == elements_view(old(out)@) + text_block(
            strings_view(lines@),
            widths@.map_values(|w: i32| w as int),
            top as int,
            cx as int,
            max_line_w as int,
        ),
{
    let ghost start = elements_view(out@);
    let ghost lv = strings_view(lines@);
    let ghost wv = widths@.map_values(|w: i32| w as int);
    let ghost block = text_block(lv, wv, top as int, cx as int, max_line_w as int);
    let n = lines.len();
    let half = tdiv_exec(max_line_w, 2);
    proof {
        lemma_tdiv_bounds(max_line_w as int, 2);
    }
    let rect = OverlayElement::Rect {
        x: cx - half - 1,
        y: top - 1,
        w: (cx + half + 1) - (cx - half - 1),
        h: (top + (n as i128) * LINE_HEIGHT) - (top - 1),
        color: OverlayColor::Backdrop,
    };
    out.push(rect);
    assert(elements_view(out@) =~= start + block.take(1));
    for i in 0..n
        invariant
            n == lv.len(),
            n == wv.len(),
            lv == strings_view(lines@),
            wv == widths@.map_values(|w: i32| w as int),
            block == text_block(lv, wv, top as int, cx as int, max_line_w as int),
            0 <= top <= BOUND,
            -BOUND <= cx <= BOUND,
            elements_view(out@) =~= start + block.take(i + 1),
    {
        let w = widths[i] as i128;
        let hw = tdiv_exec(w, 2);
        proof {
            lemma_tdiv_bounds(w as int, 2);
        }
        let ghost before = elements_view(out@);
        let e = OverlayElement::Text {
            x: cx - hw,
            y: top + (i as i128) * LINE_HEIGHT,
            text: lines[i].clone(),
            color: OverlayColor::Name,
        };
        out.push(e);
        assert(elements_view(out@) =~= before.push(e@));
        assert(block.take(i + 2) =~= block.take(i + 1).push(e@));
    }
    assert(block.take(n + 1) =~= block);
}

/// The shown names of `players` and the widest of their widths.
fn measure_names<F: Fn(&str) -> i32>(players: &Vec<TabListPlayer>, text_width: &F) -> (r: (
    Vec<String>,
    i128,
))
    requires
        measures_by_view(*text_width),
        players@.len() >= 1,
    ensures
        strings_view(r.0@) == names_view(players@),
        r.1 as int == spec_max_name_w(players@, *text_width),
        -0x8000_0000 <= r.1 < 0x8000_0000,
{
    let ghost f = *text_width;
    let mut names: Vec<String> = Vec::new();
    for i in 0..players.len()
        invariant
            names@.len() == i,
            forall|j: int| 0 <= j < i ==> names@[j]@ == spec_display_name(players@[j]),
    {
        names.push(display_name_for(&players[i]));
    }
    let ghost spec_names = names_view(players@);
    assert(strings_view(names@) =~= spec_names);
    let name_ws = measure_all(text_width, &names);
    let ghost nws = widths_of(f, spec_names);
    assert(name_ws@.map_values(|w: i32| w as int) =~= nws);
    let max_name_w = max_width_from(name_ws[0] as i128, &name_ws);
    proof {
        lemma_max_from_ge(nws[0], nws);
        assert(name_ws@[0] as int == nws[0]);
        if max_name_w as int != nws[0] {
            let k = choose|k: int| 0 <= k < nws.len() && max_from(nws[0], nws) == #[trigger] nws[k];
            assert(nws[k] == name_ws@[k] as int);
        }
    }
    (names, max_name_w)
}

/// The cell width of the grid and its whole width.
fn grid_widths(cols: usize, max_name_w: i128, gw: i32) -> (r: (i128, i128))
    requires
        cols >= 1,
        -0x8000_0000 <= max_name_w < 0x8000_0000,
    ensures
        r.0 as int == spec_slot_width(cols as int, max_name_w as int, gw as int),
        r.1 as int == spec_grid_w(r.0 as int, cols as int),
        1 <= r.0 <= 0x8000_0000,
        1 <= r.1 <= BOUND,
{
    let cols_i = cols as i128;
    assert(-0x1_0000_0000_0000_0000_0000_0000 <= cols_i * (HEAD_COL_W + max_name_w + 13)
        <= 0x1_0000_0000_0000_0000_0000_0000) by (nonlinear_arith)
        requires
            1 <= cols_i <= 0x1_0000_0000_0000_0000,
            -0x8000_0000 <= max_name_w < 0x8000_0000,
    ;
    let total = cols_i * (HEAD_COL_W + max_name_w + 13);
    let margin = gw as i128 - 50;
    let capped = if total < margin {
        total
    } else {
        margin
    };
    let t = tdiv_exec(capped, cols_i);
    proof {
        lemma_tdiv_bounds(capped as int, cols_i as int);
    }
    let slot_width = if t > 1 {
        t
    } else {
        1
    };
    assert(1 <= slot_width * cols_i <= 0x8000_0000_0000_0000_0000_0000) by (nonlinear_arith)
        requires
            1 <= cols_i <= 0x1_0000_0000_0000_0000,
            1 <= slot_width <= 0x8000_0000,
    ;
    let grid_w = slot_width * cols_i + (cols_i - 1) * 5;
    (slot_width, grid_w)
}

/// Wraps and measures an optional header or footer.
fn wrap_and_measure<F: Fn(&str) -> i32>(text: &Option<String>, wrap_w: i128, text_width: &F) -> (r: (
    Vec<String>,
    Vec<i32>,
))
    requires
        measures_by_view(*text_width),
    ensures
        strings_view(r.0@) == wrapped_or_none(opt_view(*text), *text_width, wrap_w as int),
        r.1@.map_values(|w: i32| w as int) == widths_of(*text_width, strings_view(r.0@)),
        r.1@.len() == r.0@.len(),
{
    let lines = match text {
        Some(h) => wrap_text(h.as_str(), wrap_w, text_width),
        None => Vec::new(),
    };
    assert(match *text {
        Some(_) => true,
        None => strings_view(lines@) =~= Seq::<Seq<char>>::empty(),
    });
    let ws = measure_all(text_width, &lines);
    assert(ws@.map_values(|w: i32| w as int) =~= widths_of(*text_width, strings_view(lines@)));
    (lines, ws)
}

/// The width of the backdrop over the grid and the header and footer lines.
fn max_line_width(grid_w: i128, hw: &Vec<i32>, fw: &Vec<i32>) -> (m: i128)
    requires
        1 <= grid_w <= BOUND,
    ensures
        m as int == max_from(
            grid_w as int,
            hw@.map_values(|w: i32| w as int) + fw@.map_values(|w: i32| w as int),
        ),
        1 <= m <= BOUND,
{
    let ghost shw = hw@.map_values(|w: i32| w as int);
    let ghost sfw = fw@.map_values(|w: i32| w as int);
    let m1 = max_width_from(grid_w, hw);
    let m = max_width_from(m1, fw);
    proof {
        lemma_max_from_concat(grid_w as int, shw, sfw);
        lemma_max_from_ge(grid_w as int, shw + sfw);
        if m as int != grid_w as int {
            let k = choose|k: int|
                0 <= k < (shw + sfw).len() && max_from(grid_w as int, shw + sfw) == #[trigger] (shw
                    + sfw)[k];
            if k < shw.len() {
                assert(shw[k] == hw@[k] as int);
            } else {
                assert(sfw[k - shw.len()] == fw@[k - shw.len()] as int);
            }
        }
    }
    m
}

/// Appends the four elements of each player.
fn push_players(
    out: &mut Vec<OverlayElement>,
    players: &Vec<TabListPlayer>,
    rows: usize,
    cols: usize,
    slot_width: i128,
    xxo: i128,
    yyo: i128,
)
    requires
        1 <= rows,
        rows as int * cols as int >= players@.len(),
        1 <= slot_width <= 0x8000_0000,
        -BOUND <= xxo <= BOUND,
        0 <= yyo <= BOUND,
    ensures
        elements_view(final(out)@) == elements_view(old(out)@) + players_view(
            players@,
            players@.len() as int,
            rows as int,
            slot_width as int,
            xxo as int,
            yyo as int,
        ),
{
    let ghost prefix = elements_view(out@);
    let slots = players.len();
    for i in 0..slots
        invariant
            slots == players@.len(),
            1 <= rows,
            rows as int * cols as int >= slots as int,
            1 <= slot_width <= 0x8000_0000,
            -BOUND <= xxo <= BOUND,
            0 <= yyo <= BOUND,
            elements_view(out@) =~= prefix + players_view(
                players@,
                i as int,
                rows as int,
                slot_width as int,
                xxo as int,
                yyo as int,
            ),
    {
        let col = i / rows;
        let row = i % rows;
        assert(col < cols) by (nonlinear_arith)
            requires
                col == i / rows,
                i < slots,
                rows >= 1,
                rows as int * cols as int >= slots as int,
        ;
        assert(row < rows) by (nonlinear_arith)
            requires
                row == i % rows,
                rows >= 1,
        ;
        let col_i = col as i128;
        assert(0 <= col_i * slot_width <= 0x1_0000_0000_0000_0000_0000_0000) by (nonlinear_arith)
            requires
                0 <= col_i <= 0x1_0000_0000_0000_0000,
                1 <= slot_width <= 0x8000_0000,
        ;
        let row_left = xxo + col_i * slot_width + col_i * 5;
        let yo = yyo + (row as i128) * 9;
        let p = &players[i];
        let color = if p.game_mode == SPECTATOR_GAME_MODE {
            OverlayColor::Spectator
        } else {
            OverlayColor::Name
        };
        let e1 = OverlayElement::Rect {
            x: row_left,
            y: yo,
            w: (row_left + slot_width) - row_left,
            h: (yo + 8) - yo,
            color: OverlayColor::Row,
        };
        let e2 = OverlayElement::Image { x: row_left, y: yo, w: 8, h: 8, sprite: SpriteId::SteveHead };
        let e3 = OverlayElement::Text {
            x: row_left + HEAD_COL_W,
            y: yo,
            text: display_name_for(p),
            color,
        };
        let e4 = OverlayElement::Image {
            x: row_left + slot_width - 11,
            y: yo,
            w: 10,
            h: 8,
            sprite: ping_sprite(p.latency),
        };
        let ghost before = elements_view(out@);
        let ghost four = seq![e1@, e2@, e3@, e4@];
        out.push(e1);
        out.push(e2);
        out.push(e3);
        out.push(e4);
        assert(elements_view(out@) =~= before + four);
        assert(four =~= player_elements(
            players@[i as int],
            i as int,
            rows as int,
            slot_width as int,
            xxo as int,
            yyo as int,
        ));
    }
}

/// Lays out the player list: `players` in the order shown, the optional
/// header and footer text, the screen width `gw` in GUI pixels, and a function
/// that measures text in GUI pixels, rounded up.
pub fn build_player_tab_overlay<F: Fn(&str) -> i32>(
    players: &Vec<TabListPlayer>,
    header: &Option<String>,
    footer: &Option<String>,
    gw: i32,
    text_width: &F,
) -> (elements: Vec<OverlayElement>)
    requires
        measures_by_view(*text_width),
    ensures
        elements_view(elements@) == overlay_spec(
            players@,
            opt_view(*header),
            opt_view(*footer),
            gw as int,
            *text_width,
        ),
{
    let ghost f = *text_width;
    let mut out: Vec<OverlayElement> = Vec::new();
    if players.len() == 0 {
        assert(elements_view(out@) =~= Seq::<ElementView>::empty());
        return out;
    }
    let (_names, max_name_w) = measure_names(players, text_width);
    let slots = players.len();
    let (rows, cols) = grid_shape(slots);
    proof {
        lemma_grid_holds_every_player(slots as nat);
    }
    assert(rows >= 1) by (nonlinear_arith)
        requires
            rows as int * cols as int >= slots as int,
            slots >= 1,
    ;
    let (slot_width, grid_w) = grid_widths(cols, max_name_w, gw);
    let half_gw = tdiv_exec(gw as i128, 2);
    proof {
        lemma_tdiv_bounds(gw as int, 2);
        lemma_tdiv_bounds(grid_w as int, 2);
    }
    let xxo = half_gw - tdiv_exec(grid_w, 2);
    let cx = half_gw;
    let margin = gw as i128 - 50;
    let wrap_w = if margin > 1 {
        margin
    } else {
        1
    };
    let (hl, hw) = wrap_and_measure(header, wrap_w, text_width);
    let (fl, fw) = wrap_and_measure(footer, wrap_w, text_width);
    let mlw = max_line_width(grid_w, &hw, &fw);
    let ghost head: Seq<ElementView> = Seq::empty();
    let mut yyo: i128 = 10;
    if header.is_some() {
        push_text_block(&mut out, &hl, &hw, 10, cx, mlw);
        yyo = 10 + (hl.len() as i128) * LINE_HEIGHT + 1;
        proof {
            head = text_block(strings_view(hl@), hw@.map_values(|w: i32| w as int), 10, cx as int, mlw as int);
        }
    }
    assert(elements_view(out@) =~= head);
    let half_m = tdiv_exec(mlw, 2);
    proof {
        lemma_tdiv_bounds(mlw as int, 2);
    }
    let rows_i = rows as i128;
    let backdrop = OverlayElement::Rect {
        x: cx - half_m - 1,
        y: yyo - 1,
        w: (cx + half_m + 1) - (cx - half_m - 1),
        h: (yyo + rows_i * 9) - (yyo - 1),
        color: OverlayColor::Backdrop,
    };
    out.push(backdrop);
    assert(elements_view(out@) =~= head + seq![backdrop@]);
    push_players(&mut out, players, rows, cols, slot_width, xxo, yyo);
    let ghost body = players_view(players@, slots as int, rows as int, slot_width as int, xxo as int, yyo as int);
    let ghost foot: Seq<ElementView> = Seq::empty();
    if footer.is_some() {
        push_text_block(&mut out, &fl, &fw, yyo + rows_i * 9 + 1, cx, mlw);
        proof {
            foot = text_block(strings_view(fl@), fw@.map_values(|w: i32| w as int), yyo + rows_i * 9 + 1, cx as int, mlw as int);
        }
    }
    assert(elements_view(out@) =~= head + seq![backdrop@] + body + foot);
    out
}

proof fn lemma_join_front(cur: Seq<char>, rest: Seq<Seq<char>>, sep: char)
    ensures
        join_with(seq![cur] + rest, sep) == if rest.len() == 0 {
            cur
        } else {
            cur + seq![sep] + join_with(rest, sep)
        },
    decreases rest.len(),
{
    if rest.len() > 1 {
        lemma_join_front(cur, rest.drop_last(), sep);
        assert((seq![cur] + rest).drop_last() =~= seq![cur] + rest.drop_last());
        assert((seq![cur] + rest).last() == rest.last());
        assert(join_with(seq![cur] + rest, sep) =~= cur + seq![sep] + join_with(rest, sep));
    } else if rest.len() == 1 {
        assert((seq![cur] + rest).drop_last() =~= seq![cur]);
        assert(join_with(seq![cur], sep) == cur);
        assert(join_with(rest, sep) == rest[0]);
        assert(join_with(seq![cur] + rest, sep) =~= cur + seq![sep] + join_with(rest, sep));
    } else {
        assert(seq![cur] + rest =~= seq![cur]);
    }
}

proof fn lemma_wrap_words_rejoin<F: Fn(&str) -> i32>(
    words: Seq<Seq<char>>,
    cur: Seq<char>,
    f: F,
    max_width: int,
)
    requires
        cur.len() > 0,
        forall|i: int| 0 <= i < words.len() ==> words[i].len() > 0,
    ensures
        join_with(wrap_words(words, cur, f, max_width), ' ') == join_with(seq![cur] + words, ' '),
    decreases words.len(),
{
    let w = words.first();
    let rest = words.drop_first();
    if words.len() > 0 {
        assert(w.len() > 0);
        assert forall|i: int| 0 <= i < rest.len() implies rest[i].len() > 0 by {
            assert(rest[i] == words[i + 1]);
        }
        lemma_join_front(cur, words, ' ');
        if width_of(f, cur + seq![' '] + w) <= max_width {
            let c2 = cur + seq![' '] + w;
            lemma_wrap_words_rejoin(rest, c2, f, max_width);
            lemma_join_front(c2, rest, ' ');
            lemma_join_front(w, rest, ' ');
            assert(seq![w] + rest =~= words);
        } else {
            lemma_wrap_words_rejoin(rest, w, f, max_width);
            lemma_join_front(cur, wrap_words(rest, w, f, max_width), ' ');
            lemma_wrap_words_nonempty(rest, w, f, max_width);
            assert(seq![w] + rest =~= words);
        }
    } else {
        assert(seq![cur] + words =~= seq![cur]);
    }
}

proof fn lemma_wrap_words_nonempty<F: Fn(&str) -> i32>(
    words: Seq<Seq<char>>,
    cur: Seq<char>,
    f: F,
    max_width: int,
)
    ensures
        wrap_words(words, cur, f, max_width).len() >= 1,
    decreases words.len(),
{
    if words.len() > 0 {
        let w = words[0];
        let rest = words.drop_first();
        lemma_wrap_words_nonempty(rest, w, f, max_width);
        lemma_wrap_words_nonempty(rest, cur + seq![' '] + w, f, max_width);
    }
}

/// The top edge of an element.
pub open spec fn elem_y(e: ElementView) -> int {
    match e {
        ElementView::Rect { y, .. } => y,
        ElementView::Text { y, .. } => y,
        ElementView::Image { y, .. } => y,
    }
}

proof fn lemma_players_view_index(
    players: Seq<TabListPlayer>,
    n: int,
    rows: int,
    slot_width: int,
    xxo: int,
    yyo: int,
    j: int,
)
    requires
        0 <= n,
        0 <= j < 4 * n,
    ensures
        players_view(players, n, rows, slot_width, xxo, yyo).len() == 4 * n,
        players_view(players, n, rows, slot_width, xxo, yyo)[j] == player_elements(
            players[j / 4],
            j / 4,
            rows,
            slot_width,
            xxo,
            yyo,
        )[j % 4],
    decreases n,
{
    lemma_players_view_len(players, n, rows, slot_width, xxo, yyo);
    lemma_players_view_len(players, n - 1, rows, slot_width, xxo, yyo);
    if j < 4 * (n - 1) {
        lemma_players_view_index(players, n - 1, rows, slot_width, xxo, yyo, j);
    } else {
        assert(j / 4 == n - 1 && j % 4 == j - 4 * (n - 1));
    }
}

proof fn lemma_players_view_len(
    players: Seq<TabListPlayer>,
    n: int,
    rows: int,
    slot_width: int,
    xxo: int,
    yyo: int,
)
    requires
        0 <= n,
    ensures
        players_view(players, n, rows, slot_width, xxo, yyo).len() == 4 * n,
    decreases n,
{
    if n > 0 {
        lemma_players_view_len(players, n - 1, rows, slot_width, xxo, yyo);
    }
}

/// Law: the footer is drawn below the player grid. Of the overlay's
/// elements, the last `nf` are the footer block, one backdrop and one text
/// per wrapped footer line, and the `4 * n` before them are the rows of the
/// `n` players; every footer element starts below the bottom of every
/// player row, the rows being 8 pixels tall.
pub proof fn lemma_footer_below_players<F: Fn(&str) -> i32>(
    players: Seq<TabListPlayer>,
    header: Option<Seq<char>>,
    footer: Option<Seq<char>>,
    gw: int,
    f: F,
)
    requires
        players.len() > 0,
        footer is Some,
    ensures
        ({
            let o = overlay_spec(players, header, footer, gw, f);
            let n = players.len() as int;
            let nf = 1 + wrap_spec(footer->0, f, spec_wrap_w(gw)).len();
            let first = o.len() - nf - 4 * n;
            &&& first >= 1
            &&& forall|i: int, j: int|
                first <= i < first + 4 * n && o.len() - nf <= j < o.len() ==> elem_y(o[j]) >= elem_y(
                    o[i],
                ) + 8
        }),
{
    let o = overlay_spec(players, header, footer, gw, f);
    let n = players.len() as int;
    let slots = n;
    let cols = grid_cols(slots);
    let rows = grid_rows(slots);
    lemma_grid_holds_every_player(slots as nat);
    assert(rows >= 1) by (nonlinear_arith)
        requires
            rows * cols >= slots,
            cols >= 1,
            slots >= 1,
    ;
    let slot_width = spec_slot_width(cols, spec_max_name_w(players, f), gw);
    let grid_w = spec_grid_w(slot_width, cols);
    let xxo = tdiv(gw, 2) - tdiv(grid_w, 2);
    let cx = tdiv(gw, 2);
    let hl = wrapped_or_none(header, f, spec_wrap_w(gw));
    let fl = wrapped_or_none(footer, f, spec_wrap_w(gw));
    let mlw = spec_max_line_w(grid_w, header, footer, gw, f);
    let yyo = if header is Some {
        10 + hl.len() * LINE_HEIGHT + 1
    } else {
        10
    };
    let head = if header is Some {
        text_block(hl, widths_of(f, hl), 10, cx, mlw)
    } else {
        Seq::empty()
    };
    let top = yyo + rows * 9 + 1;
    let foot = text_block(fl, widths_of(f, fl), top, cx, mlw);
    let pv = players_view(players, slots, rows, slot_width, xxo, yyo);
    lemma_players_view_len(players, slots, rows, slot_width, xxo, yyo);
    assert(o == head + seq![grid_backdrop(cx, mlw, yyo, rows)] + pv + foot);
    let nf = 1 + wrap_spec(footer->0, f, spec_wrap_w(gw)).len();
    assert(foot.len() == nf);
    let first = o.len() - nf - 4 * n;
    assert(first == head.len() + 1);
    assert forall|i: int, j: int|
        first <= i < first + 4 * n && o.len() - nf <= j < o.len() implies elem_y(o[j]) >= elem_y(
            o[i],
        ) + 8 by {
        let pi = i - first;
        lemma_players_view_index(players, slots, rows, slot_width, xxo, yyo, pi);
        assert(o[i] == pv[pi]);
        let p = pi / 4;
        assert(0 <= p < n);
        let row = p % rows;
        assert(0 <= row < rows) by (nonlinear_arith)
            requires
                rows >= 1,
                row == p % rows,
        ;
        assert(elem_y(o[i]) == yyo + row * 9);
        let fj = j - (o.len() - nf);
        assert(o[j] == foot[fj]);
        assert(elem_y(o[j]) >= top - 1);
        assert(row * 9 <= (rows - 1) * 9) by (nonlinear_arith)
            requires
                row <= rows - 1,
        ;
    }
}

/// Law: each player has its four elements in list order, all on one line:
/// its row, its head, its shown name (dimmed for spectators) and its ping
/// bars. Players fill the columns top to bottom: two players in the same
/// column sit `9` pixels apart for each place between them, and the first
/// player of each later column starts again at the top.
pub proof fn lemma_player_rows<F: Fn(&str) -> i32>(
    players: Seq<TabListPlayer>,
    header: Option<Seq<char>>,
    footer: Option<Seq<char>>,
    gw: int,
    f: F,
    p: int,
    q: int,
)
    requires
        0 <= p < players.len(),
        0 <= q < players.len(),
    ensures
        ({
            let o = overlay_spec(players, header, footer, gw, f);
            let n = players.len() as int;
            let nf = if footer is Some {
                1 + wrap_spec(footer->0, f, spec_wrap_w(gw)).len()
            } else {
                0
            };
            let a = o.len() - nf - 4 * n + 4 * p;
            let b = o.len() - nf - 4 * n + 4 * q;
            let rows = grid_rows(n);
            &&& o[a] is Rect && o[a]->Rect_color == OverlayColor::Row
            &&& o[a + 1] == ElementView::Image {
                x: o[a]->Rect_x,
                y: elem_y(o[a]),
                w: 8,
                h: 8,
                sprite: SpriteId::SteveHead,
            }
            &&& o[a + 2] is Text && o[a + 2]->Text_text == spec_display_name(players[p])
            &&& o[a + 2]->Text_color == if players[p].game_mode == SPECTATOR_GAME_MODE {
                OverlayColor::Spectator
            } else {
                OverlayColor::Name
            }
            &&& o[a + 3] is Image && o[a + 3]->Image_sprite == spec_ping_sprite(players[p].latency)
            &&& elem_y(o[a + 2]) == elem_y(o[a]) && elem_y(o[a + 3]) == elem_y(o[a])
            &&& p / rows == q / rows ==> elem_y(o[b]) - elem_y(o[a]) == 9 * (q - p)
            &&& p % rows == 0 && q % rows == 0 ==> elem_y(o[a]) == elem_y(o[b])
        }),
{
    let o = overlay_spec(players, header, footer, gw, f);
    let n = players.len() as int;
    let slots = n;
    let cols = grid_cols(slots);
    let rows = grid_rows(slots);
    lemma_grid_holds_every_player(slots as nat);
    assert(rows >= 1) by (nonlinear_arith)
        requires
            rows * cols >= slots,
            cols >= 1,
            slots >= 1,
    ;
    let slot_width = spec_slot_width(cols, spec_max_name_w(players, f), gw);
    let grid_w = spec_grid_w(slot_width, cols);
    let xxo = tdiv(gw, 2) - tdiv(grid_w, 2);
    let cx = tdiv(gw, 2);
    let hl = wrapped_or_none(header, f, spec_wrap_w(gw));
    let fl = wrapped_or_none(footer, f, spec_wrap_w(gw));
    let mlw = spec_max_line_w(grid_w, header, footer, gw, f);
    let yyo = if header is Some {
        10 + hl.len() * LINE_HEIGHT + 1
    } else {
        10
    };
    let head = if header is Some {
        text_block(hl, widths_of(f, hl), 10, cx, mlw)
    } else {
        Seq::empty()
    };
    let foot = if footer is Some {
        text_block(fl, widths_of(f, fl), yyo + rows * 9 + 1, cx, mlw)
    } else {
        Seq::empty()
    };
    let pv = players_view(players, slots, rows, slot_width, xxo, yyo);
    lemma_players_view_len(players, slots, rows, slot_width, xxo, yyo);
    assert(o == head + seq![grid_backdrop(cx, mlw, yyo, rows)] + pv + foot);
    let nf = if footer is Some {
        1 + wrap_spec(footer->0, f, spec_wrap_w(gw)).len()
    } else {
        0
    };
    assert(foot.len() == nf);
    let first = o.len() - nf - 4 * n;
    assert(first == head.len() + 1);
    let a = first + 4 * p;
    let b = first + 4 * q;
    lemma_players_view_index(players, slots, rows, slot_width, xxo, yyo, 4 * p);
    lemma_players_view_index(players, slots, rows, slot_width, xxo, yyo, 4 * p + 1);
    lemma_players_view_index(players, slots, rows, slot_width, xxo, yyo, 4 * p + 2);
    lemma_players_view_index(players, slots, rows, slot_width, xxo, yyo, 4 * p + 3);
    lemma_players_view_index(players, slots, rows, slot_width, xxo, yyo, 4 * q);
    assert((4 * p) / 4 == p && (4 * p) % 4 == 0);
    assert((4 * p + 1) / 4 == p && (4 * p + 1) % 4 == 1);
    assert((4 * p + 2) / 4 == p && (4 * p + 2) % 4 == 2);
    assert((4 * p + 3) / 4 == p && (4 * p + 3) % 4 == 3);
    assert((4 * q) / 4 == q && (4 * q) % 4 == 0);
    assert(o[a] == pv[4 * p]);
    assert(o[a + 1] == pv[4 * p + 1]);
    assert(o[a + 2] == pv[4 * p + 2]);
    assert(o[a + 3] == pv[4 * p + 3]);
    assert(o[b] == pv[4 * q]);
    assert(elem_y(o[a]) == yyo + (p % rows) * 9);
    assert(elem_y(o[b]) == yyo + (q % rows) * 9);
    if p / rows == q / rows {
        assert(q % rows - p % rows == q - p) by (nonlinear_arith)
            requires
                rows >= 1,
                p / rows == q / rows,
        {
            assert(p == rows * (p / rows) + p % rows);
            assert(q == rows * (q / rows) + q % rows);
        }
    }
}

/// Law: wrapping moves line breaks but loses no text. Where a line has no
/// empty word (no leading, trailing or doubled space), joining its wrapped
/// lines with single spaces gives the line back.
pub proof fn lemma_wrap_keeps_text<F: Fn(&str) -> i32>(line: Seq<char>, f: F, max_width: int)
    requires
        forall|i: int|
            0 <= i < split_on(line, ' ').len() ==> (#[trigger] split_on(line, ' ')[i]).len() > 0,
    ensures
        join_with(wrap_words(split_on(line, ' '), Seq::empty(), f, max_width), ' ') == line,
{
    let words = split_on(line, ' ');
    crate::text::lemma_split_on_nonempty(line, ' ');
    let w = words[0];
    let rest = words.drop_first();
    assert forall|i: int| 0 <= i < rest.len() implies rest[i].len() > 0 by {
        assert(rest[i] == words[i + 1]);
    }
    lemma_wrap_words_rejoin(rest, w, f, max_width);
    assert(seq![w] + rest =~= words);
    lemma_join_split(line, ' ');
}

} // verus!
