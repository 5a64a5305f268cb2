use pomme::registry::{
    build_variant_key, find_key, lex_less, sort_properties, BakedModel, BlockRegistry,
    FaceTextures, TextureSource, Tint,
};

fn props(p: &[(&str, &str)]) -> Vec<(String, String)> {
    p.iter().map(|(k, v)| (k.to_string(), v.to_string())).collect()
}

fn model(tex: &str, full: bool) -> BakedModel {
    BakedModel { quad_textures: vec![tex.to_string()], is_full_cube: full }
}

fn log_registry() -> BlockRegistry {
    let baked = vec![
        (
            "oak_log".to_string(),
            vec![
                ("axis=x".to_string(), model("log_x", true)),
                ("axis=y".to_string(), model("log_y", true)),
            ],
        ),
        ("glass".to_string(), vec![("".to_string(), model("glass", false))]),
        (
            "torch".to_string(),
            vec![
                ("facing=east".to_string(), model("torch_e", false)),
                ("".to_string(), model("torch", false)),
            ],
        ),
        (
            "lever".to_string(),
            vec![
                ("face=wall".to_string(), model("lever_w", false)),
                ("face=floor".to_string(), model("lever_f", false)),
            ],
        ),
    ];
    let textures = vec![("stone".to_string(), FaceTextures::uniform("stone", Tint::Untinted))];
    BlockRegistry::load(TextureSource::Built(textures), baked)
}

#[test]
fn face_textures_new_and_uniform() {
    let f = FaceTextures::new("t", "b", "n", "s", "e", "w", Some("o"), Tint::Grass);
    assert_eq!((f.top.as_str(), f.bottom.as_str(), f.north.as_str()), ("t", "b", "n"));
    assert_eq!((f.south.as_str(), f.east.as_str(), f.west.as_str()), ("s", "e", "w"));
    assert_eq!(f.side_overlay.as_deref(), Some("o"));
    assert_eq!(f.tint, Tint::Grass);
    let u = FaceTextures::uniform("dirt", Tint::Foliage);
    assert_eq!(u.top, "dirt");
    assert_eq!(u.west, "dirt");
    assert_eq!(u.side_overlay, None);
    assert_eq!(u.tint, Tint::Foliage);
}

#[test]
fn built_textures_get_fluid_defaults() {
    let r = log_registry();
    let water = r.get_textures("water").unwrap();
    assert_eq!(water.top, "water_still");
    assert_eq!(water.tint, Tint::Untinted);
    assert_eq!(r.get_textures("lava").unwrap().north, "lava_still");
    assert_eq!(r.get_textures("stone").unwrap().east, "stone");
    assert!(r.get_textures("dirt").is_none());
    assert_eq!(r.textures().len(), 3);
}

#[test]
fn built_textures_keep_own_water() {
    let textures = vec![("water".to_string(), FaceTextures::uniform("my_water", Tint::Untinted))];
    let r = BlockRegistry::load(TextureSource::Built(textures), vec![]);
    assert_eq!(r.get_textures("water").unwrap().top, "my_water");
    assert_eq!(r.get_textures("lava").unwrap().top, "lava_still");
    assert_eq!(r.textures().len(), 2);
}

#[test]
fn cached_textures_taken_as_they_are() {
    let textures = vec![("stone".to_string(), FaceTextures::uniform("stone", Tint::Untinted))];
    let r = BlockRegistry::load(TextureSource::Cached(textures), vec![]);
    assert!(r.get_textures("water").is_none());
    assert_eq!(r.textures().len(), 1);
}

#[test]
fn variant_key_sorted_by_name() {
    assert_eq!(build_variant_key(props(&[("facing", "north"), ("axis", "y")])), "axis=y,facing=north");
    assert_eq!(build_variant_key(props(&[])), "");
    assert_eq!(
        build_variant_key(props(&[("waterlogged", "false"), ("half", "top"), ("facing", "east")])),
        "facing=east,half=top,waterlogged=false"
    );
}

#[test]
fn sort_properties_orders_keys() {
    let s = sort_properties(props(&[("b", "1"), ("a", "2"), ("ab", "3")]));
    assert_eq!(s, props(&[("a", "2"), ("ab", "3"), ("b", "1")]));
}

#[test]
fn lex_less_is_str_order() {
    let cases = ["", "a", "ab", "b", "B", "é", "z"];
    for x in cases {
        for y in cases {
            assert_eq!(lex_less(&x.to_string(), &y.to_string()), x < y, "{x} {y}");
        }
    }
}

#[test]
fn find_key_first_position() {
    let entries = vec![("a".to_string(), 1), ("b".to_string(), 2), ("a".to_string(), 3)];
    assert_eq!(find_key(&entries, "a"), Some(0));
    assert_eq!(find_key(&entries, "b"), Some(1));
    assert_eq!(find_key(&entries, "c"), None);
}

#[test]
fn baked_model_by_variant() {
    let r = log_registry();
    let m = r.get_baked_model("oak_log", props(&[("axis", "y")])).unwrap();
    assert_eq!(m.quad_textures, vec!["log_y"]);
    let m = r.get_baked_model("oak_log", props(&[("axis", "x")])).unwrap();
    assert_eq!(m.quad_textures, vec!["log_x"]);
}

#[test]
fn baked_model_single_variant_whatever_state() {
    let r = log_registry();
    let m = r.get_baked_model("glass", props(&[("waterlogged", "true")])).unwrap();
    assert_eq!(m.quad_textures, vec!["glass"]);
}

#[test]
fn baked_model_falls_back_to_empty_key_then_first() {
    let r = log_registry();
    let m = r.get_baked_model("torch", props(&[("facing", "north")])).unwrap();
    assert_eq!(m.quad_textures, vec!["torch"]);
    let m = r.get_baked_model("lever", props(&[("face", "ceiling")])).unwrap();
    assert_eq!(m.quad_textures, vec!["lever_w"]);
    assert!(r.get_baked_model("stone", props(&[])).is_none());
}

#[test]
fn opaque_full_cube() {
    let r = log_registry();
    assert!(r.is_opaque_full_cube(false, "oak_log", props(&[("axis", "y")])));
    assert!(!r.is_opaque_full_cube(true, "oak_log", props(&[("axis", "y")])));
    assert!(!r.is_opaque_full_cube(false, "glass", props(&[])));
    assert!(!r.is_opaque_full_cube(false, "unknown", props(&[])));
}

#[test]
fn texture_names_faces_then_models() {
    let textures = vec![(
        "grass_block".to_string(),
        FaceTextures::new("top", "dirt", "side", "side", "side", "side", Some("overlay"), Tint::Grass),
    )];
    let baked = vec![("glass".to_string(), vec![("".to_string(), model("glass", false))])];
    let r = BlockRegistry::load(TextureSource::Cached(textures), baked);
    assert_eq!(
        r.texture_names(),
        vec!["top", "dirt", "side", "side", "side", "side", "overlay", "glass"]
    );
}

#[test]
fn variant_key_ignores_property_order() {
    let a = props(&[("facing", "north"), ("half", "top"), ("axis", "y")]);
    let b = props(&[("axis", "y"), ("facing", "north"), ("half", "top")]);
    assert_eq!(build_variant_key(a), build_variant_key(b));
}

#[test]
fn fluid_defaults_keep_existing_entries() {
    let textures = vec![
        ("stone".to_string(), FaceTextures::uniform("stone", Tint::Untinted)),
        ("lava".to_string(), FaceTextures::uniform("magma", Tint::Untinted)),
    ];
    let r = BlockRegistry::load(TextureSource::Built(textures), vec![]);
    let t = r.textures();
    assert_eq!(t.len(), 3);
    assert_eq!(t[0].0, "stone");
    assert_eq!(t[1].0, "lava");
    assert_eq!(t[1].1.top, "magma");
    assert_eq!(t[2].0, "water");
    assert_eq!(t[2].1.top, "water_still");
}
