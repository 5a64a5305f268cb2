use pomme::block_entity::{is_block_entity_block, is_fluid_block, is_invisible_block};
use pomme::chunk_borders::{border_lines, chunk_origin, uploaded_vertex_count, BorderColor, BorderLine};
use pomme::entity_parts::{chest_parts, shulker_box_parts, sign_parts};
use pomme::menu::{MainMenu, MenuAction, MenuEvent, Screen};
use pomme::state_slot::StateSlot;
use pomme::text::{chars_of, is_control_char, join_chars, split_chars, str_eq};
use pomme::user::UserData;

#[test]
fn block_entity_blocks() {
    for b in ["chest", "trapped_chest", "ender_chest", "shulker_box", "red_shulker_box", "oak_sign", "bell", "crafter"] {
        assert!(is_block_entity_block(b), "{b}");
    }
    for b in ["stone", "", "chest ", "Chest", "water"] {
        assert!(!is_block_entity_block(b), "{b}");
    }
}

#[test]
fn invisible_blocks() {
    for b in ["air", "cave_air", "void_air", "barrier", "light", "structure_void", "moving_piston", "heavy_core"] {
        assert!(is_invisible_block(b), "{b}");
    }
    assert!(!is_invisible_block("stone"));
    assert!(!is_invisible_block("glass"));
}

#[test]
fn fluid_blocks() {
    assert!(is_fluid_block("water"));
    assert!(is_fluid_block("lava"));
    assert!(is_fluid_block("bubble_column"));
    assert!(!is_fluid_block("ice"));
    assert!(!is_fluid_block("waterlogged"));
}

#[test]
fn chunk_origin_rounds_down() {
    assert_eq!(chunk_origin(0), 0);
    assert_eq!(chunk_origin(15), 0);
    assert_eq!(chunk_origin(17), 16);
    assert_eq!(chunk_origin(-1), -16);
    assert_eq!(chunk_origin(-16), -16);
    assert_eq!(chunk_origin(-17), -32);
    assert_eq!(chunk_origin(i32::MIN), i32::MIN as i64);
    assert_eq!(chunk_origin(i32::MAX), 2147483632);
}

#[test]
fn border_lines_for_overworld_height() {
    let lines = border_lines(16, -32, -64, 320);
    assert_eq!(lines.len(), 64 + 4 * 25);
    assert_eq!(
        lines[0],
        BorderLine { x0: 16, y0: -64, z0: -32, x1: 16, y1: 320, z1: -32, color: BorderColor::Red }
    );
    assert_eq!(
        lines[3],
        BorderLine { x0: 32, y0: -64, z0: -16, x1: 32, y1: 320, z1: -16, color: BorderColor::Red }
    );
    assert_eq!(
        lines[4],
        BorderLine { x0: 17, y0: -64, z0: -32, x1: 17, y1: 320, z1: -32, color: BorderColor::Blue }
    );
    assert_eq!(
        lines[7],
        BorderLine { x0: 32, y0: -64, z0: -31, x1: 32, y1: 320, z1: -31, color: BorderColor::Blue }
    );
    assert_eq!(
        lines[64],
        BorderLine { x0: 16, y0: -64, z0: -32, x1: 32, y1: -64, z1: -32, color: BorderColor::Yellow }
    );
    assert_eq!(
        lines[163],
        BorderLine { x0: 32, y0: 320, z0: -32, x1: 32, y1: 320, z1: -16, color: BorderColor::Yellow }
    );
    assert!(lines[4..64].iter().all(|l| l.color == BorderColor::Blue));
}

#[test]
fn border_sections_follow_truncating_division() {
    assert_eq!(border_lines(0, 0, 0, 0).len(), 68);
    assert_eq!(border_lines(0, 0, 0, 15).len(), 68);
    assert_eq!(border_lines(0, 0, 0, 16).len(), 72);
    assert_eq!(border_lines(0, 0, 0, -10).len(), 68);
    assert_eq!(border_lines(0, 0, 0, -16).len(), 64);
    assert_eq!(border_lines(0, 0, 0, -100).len(), 64);
}

#[test]
fn vertex_upload_capped() {
    assert_eq!(uploaded_vertex_count(0), 0);
    assert_eq!(uploaded_vertex_count(164), 328);
    assert_eq!(uploaded_vertex_count(2047), 4094);
    assert_eq!(uploaded_vertex_count(2048), 4096);
    assert_eq!(uploaded_vertex_count(5000), 4096);
}

#[test]
fn chest_geometry() {
    let m = chest_parts();
    assert_eq!((m.tex_w, m.tex_h), (64, 64));
    assert_eq!(m.parts.len(), 2);
    assert_eq!(m.parts[0].name, "lid");
    assert_eq!(m.parts[0].offset, (0, 9, 1));
    assert_eq!(m.parts[0].cubes.len(), 2);
    let latch = m.parts[0].cubes[1];
    assert_eq!((latch.origin_x, latch.origin_y, latch.origin_z), (-1, -2, 6));
    let lid = m.parts[0].cubes[0];
    assert_eq!((lid.origin_x, lid.origin_y, lid.origin_z), (-7, 0, -8));
    // the lid covers the bottom's footprint, z -7..7
    assert_eq!(m.parts[0].offset.2 + lid.origin_z, -7);
    assert_eq!(m.parts[0].offset.2 + lid.origin_z + lid.size_z, 7);
    assert_eq!((latch.size_x, latch.size_y, latch.size_z), (2, 4, 1));
    assert_eq!(m.parts[1].name, "bottom");
    assert_eq!((m.parts[1].cubes[0].tex_u, m.parts[1].cubes[0].tex_v), (0, 19));
}

#[test]
fn shulker_and_sign_geometry() {
    let s = shulker_box_parts();
    assert_eq!((s.tex_w, s.tex_h), (64, 64));
    assert_eq!(s.parts[0].name, "lid");
    assert_eq!(s.parts[1].name, "base");
    assert_eq!(s.parts[1].offset, (0, 8, 0));
    assert_eq!(s.parts[1].cubes[0].tex_v, 28);
    let lid = s.parts[0].cubes[0];
    let base = s.parts[1].cubes[0];
    assert_eq!(s.parts[0].offset.1 + lid.origin_y + lid.size_y, s.parts[1].offset.1 + base.origin_y);
    let g = sign_parts();
    assert_eq!((g.tex_w, g.tex_h), (64, 32));
    assert_eq!(g.parts[0].name, "sign");
    assert_eq!(g.parts[0].cubes[0].size_x, 24);
    assert_eq!(g.parts[1].name, "stick");
    assert_eq!(g.parts[1].cubes[0].size_y, 14);
}

#[test]
fn menu_starts_on_main_screen() {
    let m = MainMenu::new();
    assert_eq!(m.screen(), Screen::Main);
    assert_eq!(m.server_address(), "localhost:25565");
    assert_eq!(m.username(), "Steve");
    assert!(m.splash().is_none());
}

#[test]
fn menu_connect_flow() {
    let mut m = MainMenu::new();
    assert!(matches!(m.handle(MenuEvent::Connect), MenuAction::Nothing));
    assert!(matches!(m.handle(MenuEvent::Multiplayer), MenuAction::Nothing));
    assert_eq!(m.screen(), Screen::Multiplayer);
    m.set_server_address("mc.example.com".to_string());
    m.set_username("Alex".to_string());
    match m.handle(MenuEvent::Connect) {
        MenuAction::Connect { server, username } => {
            assert_eq!(server, "mc.example.com");
            assert_eq!(username, "Alex");
        }
        _ => panic!("expected a connection"),
    }
    assert!(matches!(m.handle(MenuEvent::Back), MenuAction::Nothing));
    assert_eq!(m.screen(), Screen::Main);
}

#[test]
fn menu_quit_only_from_main() {
    let mut m = MainMenu::new();
    assert!(matches!(m.handle(MenuEvent::QuitGame), MenuAction::Quit));
    assert!(matches!(m.handle(MenuEvent::Singleplayer), MenuAction::Nothing));
    assert!(matches!(m.handle(MenuEvent::Options), MenuAction::Nothing));
    m.handle(MenuEvent::Multiplayer);
    assert!(matches!(m.handle(MenuEvent::QuitGame), MenuAction::Nothing));
}

#[test]
fn splash_picks_nonempty_line() {
    let mut m = MainMenu::new();
    m.choose_splash("a\n\nb\r\nc", 1);
    assert_eq!(m.splash().map(|s| s.as_str()), Some("b"));
    m.choose_splash("a\n\nb\r\nc\n", 5);
    assert_eq!(m.splash().map(|s| s.as_str()), Some("c"));
    m.choose_splash("\n\n", 0);
    assert_eq!(m.splash().map(|s| s.as_str()), Some("c"));
}

#[test]
fn splash_absent_without_lines() {
    let mut m = MainMenu::new();
    m.choose_splash("", 3);
    assert!(m.splash().is_none());
}

#[test]
fn state_slot_transitions() {
    let mut s = StateSlot::new(5u32);
    assert_eq!(*s.get(), 5);
    s.transition(|x| x * 2 + 1);
    assert_eq!(*s.get(), 11);
    *s.get_mut() = 3;
    assert_eq!(*s.get(), 3);
    let mut t = StateSlot::new(String::from("a"));
    t.transition(|mut v| {
        v.push('b');
        v
    });
    assert_eq!(t.get(), "ab");
}

#[test]
fn user_defaults_to_steve_offline() {
    let u = UserData::from_args(None, None, None);
    assert_eq!(u.username, "Steve");
    let expected = uuid::Uuid::new_v3(&uuid::Uuid::NAMESPACE_DNS, b"OfflinePlayer:Steve").as_u128();
    assert_eq!(u.uuid, expected);
    assert_eq!((u.uuid >> 76) & 0xf, 3);
    assert_eq!(u.access_token, None);
}

#[test]
fn user_given_uuid_parses() {
    let u = UserData::from_args(
        Some("Alex".to_string()),
        Some("123e4567-e89b-12d3-a456-426614174000".to_string()),
        Some("tok".to_string()),
    );
    assert_eq!(u.username, "Alex");
    assert_eq!(u.uuid, 0x123e4567_e89b_12d3_a456_426614174000);
    assert_eq!(u.access_token.as_deref(), Some("tok"));
    let simple = UserData::from_args(None, Some("123e4567e89b12d3a456426614174000".to_string()), None);
    assert_eq!(simple.uuid, 0x123e4567_e89b_12d3_a456_426614174000);
}

#[test]
fn user_bad_uuid_falls_back_to_offline() {
    let u = UserData::from_args(Some("Alex".to_string()), Some("not-a-uuid".to_string()), None);
    assert_eq!(u.uuid, UserData::offline_uuid("Alex"));
    let expected = uuid::Uuid::new_v3(&uuid::Uuid::NAMESPACE_DNS, b"OfflinePlayer:Alex").as_u128();
    assert_eq!(u.uuid, expected);
    assert_ne!(UserData::offline_uuid("Alex"), UserData::offline_uuid("Steve"));
}

#[test]
fn text_helpers() {
    assert_eq!(chars_of("héllo"), vec!['h', 'é', 'l', 'l', 'o']);
    assert!(str_eq("abc", "abc"));
    assert!(!str_eq("abc", "abd"));
    assert!(!str_eq("ab", "abc"));
    assert!(is_control_char('\n'));
    assert!(is_control_char('\u{7f}'));
    assert!(is_control_char('\u{85}'));
    assert!(!is_control_char('a'));
    assert!(!is_control_char(' '));
    let parts = split_chars(&chars_of("a,,b"), ',');
    assert_eq!(parts, vec![vec!['a'], vec![], vec!['b']]);
    assert_eq!(join_chars(&parts, ','), chars_of("a,,b"));
    assert_eq!(split_chars(&vec![], ','), vec![Vec::<char>::new()]);
}

#[test]
fn block_classes_are_disjoint() {
    for b in ["air", "cave_air", "water", "lava", "bubble_column", "chest", "bell", "barrier", "light", "stone"] {
        let n = [is_block_entity_block(b), is_invisible_block(b), is_fluid_block(b)]
            .iter()
            .filter(|x| **x)
            .count();
        assert!(n <= 1, "{b}");
    }
}
