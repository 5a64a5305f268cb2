use pomme::player_tab::{
    build_player_tab_overlay, display_name_for, grid_shape, ping_sprite, wrap_text, OverlayColor,
    OverlayElement, TabListPlayer,
};
use pomme::sprites::SpriteId;

fn six_per_char(s: &str) -> i32 {
    6 * s.chars().count() as i32
}

fn player(name: &str, latency: i32, game_mode: u8) -> TabListPlayer {
    TabListPlayer { name: name.to_string(), display_name: None, game_mode, latency }
}

fn describe(e: &OverlayElement) -> String {
    match e {
        OverlayElement::Rect { x, y, w, h, color } => format!("rect {x} {y} {w} {h} {color:?}"),
        OverlayElement::Text { x, y, text, color } => format!("text {x} {y} {text} {color:?}"),
        OverlayElement::Image { x, y, w, h, sprite } => format!("image {x} {y} {w} {h} {sprite:?}"),
    }
}

#[test]
fn display_name_prefers_display_name() {
    let mut p = player("Alex", 0, 0);
    assert_eq!(display_name_for(&p), "Alex");
    p.display_name = Some("[Admin] Alex".to_string());
    assert_eq!(display_name_for(&p), "[Admin] Alex");
}

#[test]
fn ping_thresholds() {
    assert_eq!(ping_sprite(-1), SpriteId::PingUnknown);
    assert_eq!(ping_sprite(0), SpriteId::Ping5);
    assert_eq!(ping_sprite(149), SpriteId::Ping5);
    assert_eq!(ping_sprite(150), SpriteId::Ping4);
    assert_eq!(ping_sprite(299), SpriteId::Ping4);
    assert_eq!(ping_sprite(300), SpriteId::Ping3);
    assert_eq!(ping_sprite(599), SpriteId::Ping3);
    assert_eq!(ping_sprite(600), SpriteId::Ping2);
    assert_eq!(ping_sprite(999), SpriteId::Ping2);
    assert_eq!(ping_sprite(1000), SpriteId::Ping1);
    assert_eq!(ping_sprite(i32::MAX), SpriteId::Ping1);
}

#[test]
fn grid_at_most_twenty_rows() {
    assert_eq!(grid_shape(0), (0, 1));
    assert_eq!(grid_shape(1), (1, 1));
    assert_eq!(grid_shape(20), (20, 1));
    assert_eq!(grid_shape(21), (11, 2));
    assert_eq!(grid_shape(45), (15, 3));
    assert_eq!(grid_shape(80), (20, 4));
    assert_eq!(grid_shape(81), (17, 5));
}

#[test]
fn grid_holds_every_player() {
    for n in 0..200usize {
        let (rows, cols) = grid_shape(n);
        assert!(rows * cols >= n);
        assert!(rows <= 20);
    }
}

#[test]
fn wrap_breaks_on_width() {
    assert_eq!(wrap_text("hello world foo", 60, &six_per_char), vec!["hello", "world foo"]);
    assert_eq!(wrap_text("hello world foo", 1000, &six_per_char), vec!["hello world foo"]);
}

#[test]
fn wrap_keeps_long_words_whole() {
    assert_eq!(wrap_text("abcdefghijkl x", 12, &six_per_char), vec!["abcdefghijkl", "x"]);
}

#[test]
fn wrap_splits_lines() {
    assert_eq!(wrap_text("a\nb c", 1000, &six_per_char), vec!["a", "b c"]);
    assert_eq!(wrap_text("", 10, &six_per_char), vec![""]);
    assert_eq!(wrap_text("a\n", 10, &six_per_char), vec!["a", ""]);
}

#[test]
fn wrap_rejoins_to_text() {
    let text = "the quick brown fox jumps over the lazy dog";
    let lines = wrap_text(text, 40, &six_per_char);
    assert!(lines.len() > 1);
    assert_eq!(lines.join(" "), text);
}

#[test]
fn overlay_empty_without_players() {
    let e = build_player_tab_overlay(&vec![], &Some("Header".to_string()), &None, 200, &six_per_char);
    assert!(e.is_empty());
}

#[test]
fn overlay_one_player() {
    let players = vec![player("Alex", 50, 0)];
    let e = build_player_tab_overlay(&players, &None, &None, 200, &six_per_char);
    let d: Vec<String> = e.iter().map(describe).collect();
    assert_eq!(
        d,
        vec![
            "rect 76 9 48 10 Backdrop",
            "rect 77 10 46 8 Row",
            "image 77 10 8 8 SteveHead",
            "text 86 10 Alex Name",
            "image 112 10 10 8 Ping5",
        ]
    );
}

#[test]
fn overlay_with_header_and_spectator() {
    let players = vec![player("Alex", 50, 3)];
    let e = build_player_tab_overlay(&players, &Some("Hi".to_string()), &None, 200, &six_per_char);
    let d: Vec<String> = e.iter().map(describe).collect();
    assert_eq!(
        d,
        vec![
            "rect 76 9 48 10 Backdrop",
            "text 94 10 Hi Name",
            "rect 76 19 48 10 Backdrop",
            "rect 77 20 46 8 Row",
            "image 77 20 8 8 SteveHead",
            "text 86 20 Alex Spectator",
            "image 112 20 10 8 Ping5",
        ]
    );
}

#[test]
fn overlay_footer_below_list() {
    let players = vec![player("Alex", 2000, 0)];
    let e = build_player_tab_overlay(&players, &None, &Some("Bye".to_string()), 200, &six_per_char);
    let d: Vec<String> = e.iter().map(describe).collect();
    assert_eq!(d.len(), 7);
    assert_eq!(d[4], "image 112 10 10 8 Ping1");
    assert_eq!(d[5], "rect 76 19 48 10 Backdrop");
    assert_eq!(d[6], "text 91 20 Bye Name");
}

#[test]
fn overlay_two_columns() {
    let players: Vec<TabListPlayer> = (0..21).map(|i| player(&format!("p{i:02}"), 0, 0)).collect();
    let e = build_player_tab_overlay(&players, &None, &None, 400, &six_per_char);
    // backdrop, then four elements per player
    assert_eq!(e.len(), 1 + 4 * 21);
    let rows: Vec<String> = e
        .iter()
        .filter(|x| matches!(x, OverlayElement::Rect { color: OverlayColor::Row, .. }))
        .map(describe)
        .collect();
    assert_eq!(rows.len(), 21);
    // slot width 9 + 18 + 13 = 40; grid 85 wide, centred at 200
    assert_eq!(rows[0], "rect 158 10 40 8 Row");
    assert_eq!(rows[10], "rect 158 100 40 8 Row");
    assert_eq!(rows[11], "rect 203 10 40 8 Row");
}
