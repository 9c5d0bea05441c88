//! Validation of modeled callback returns, on concrete values.

use desktop_sprite::{ScriptVal, SpriteError, parse_init, parse_tick};

fn str_val(s: &str) -> ScriptVal {
    ScriptVal::Str(s.to_string())
}

#[test]
fn init_accepts_paths_and_dimensions() {
    let vals = vec![
        ScriptVal::List(vec![str_val("cat.png"), str_val("dog.png")]),
        ScriptVal::Int(64),
        ScriptVal::Int(48),
    ];
    let init = parse_init(&vals).unwrap();
    assert_eq!(init.width, 64);
    assert_eq!(init.height, 48);
    assert_eq!(init.image_paths, vec!["cat.png".to_string(), "dog.png".to_string()]);
}

#[test]
fn init_accepts_empty_image_list() {
    let vals = vec![ScriptVal::List(Vec::new()), ScriptVal::Int(64), ScriptVal::Int(64)];
    let init = parse_init(&vals).unwrap();
    assert!(init.image_paths.is_empty());
}

#[test]
fn init_accepts_zero_dimensions() {
    let vals = vec![ScriptVal::List(vec![str_val("a.png")]), ScriptVal::Int(0), ScriptVal::Int(0)];
    let init = parse_init(&vals).unwrap();
    assert_eq!(init.width, 0);
    assert_eq!(init.height, 0);
}

#[test]
fn init_rejects_wrong_arity() {
    let vals = vec![ScriptVal::List(Vec::new()), ScriptVal::Int(64)];
    assert!(matches!(parse_init(&vals), Err(SpriteError::ScriptContract(_))));
}

#[test]
fn init_rejects_negative_dimension() {
    let vals = vec![ScriptVal::List(Vec::new()), ScriptVal::Int(-1), ScriptVal::Int(64)];
    assert!(matches!(parse_init(&vals), Err(SpriteError::ScriptContract(_))));
}

#[test]
fn init_rejects_non_string_path() {
    let vals = vec![
        ScriptVal::List(vec![ScriptVal::Int(7)]),
        ScriptVal::Int(64),
        ScriptVal::Int(64),
    ];
    assert!(matches!(parse_init(&vals), Err(SpriteError::ScriptContract(_))));
}

#[test]
fn init_rejects_non_list_paths() {
    let vals = vec![str_val("cat.png"), ScriptVal::Int(64), ScriptVal::Int(64)];
    assert!(matches!(parse_init(&vals), Err(SpriteError::ScriptContract(_))));
}

#[test]
fn tick_accepts_in_range_index() {
    let vals = vec![ScriptVal::Int(1), ScriptVal::Int(100), ScriptVal::Int(-200)];
    let a = parse_tick(&vals, 2).unwrap();
    assert_eq!(a.texture_index, 1);
    assert_eq!(a.x, 100);
    assert_eq!(a.y, -200);
}

#[test]
fn tick_rejects_out_of_range_index() {
    let vals = vec![ScriptVal::Int(5), ScriptVal::Int(0), ScriptVal::Int(0)];
    assert!(matches!(parse_tick(&vals, 2), Err(SpriteError::ScriptContract(_))));
}

#[test]
fn tick_rejects_every_index_without_textures() {
    for idx in [0i64, 1, 7] {
        let vals = vec![ScriptVal::Int(idx), ScriptVal::Int(0), ScriptVal::Int(0)];
        assert!(matches!(parse_tick(&vals, 0), Err(SpriteError::ScriptContract(_))));
    }
}

#[test]
fn tick_rejects_wrong_arity() {
    let vals = vec![ScriptVal::Int(0), ScriptVal::Int(0)];
    assert!(matches!(parse_tick(&vals, 1), Err(SpriteError::ScriptContract(_))));
}

#[test]
fn tick_rejects_non_integer_coordinate() {
    let vals = vec![ScriptVal::Int(0), str_val("ten"), ScriptVal::Int(0)];
    assert!(matches!(parse_tick(&vals, 1), Err(SpriteError::ScriptContract(_))));
}

#[test]
fn tick_rejects_coordinate_beyond_i32() {
    let vals = vec![ScriptVal::Int(0), ScriptVal::Int(1i64 << 40), ScriptVal::Int(0)];
    assert!(matches!(parse_tick(&vals, 1), Err(SpriteError::ScriptContract(_))));
}

#[test]
fn every_error_kind_carries_its_message() {
    let errors = vec![
        SpriteError::Config("a".to_string()),
        SpriteError::AssetDecode("b".to_string()),
        SpriteError::TextureUpload("c".to_string()),
        SpriteError::ScriptContract("d".to_string()),
        SpriteError::ScriptRuntime("e".to_string()),
        SpriteError::WindowSystem("f".to_string()),
    ];
    let messages: Vec<String> = errors.iter().map(|e| e.message()).collect();
    assert_eq!(messages, vec!["a", "b", "c", "d", "e", "f"]);
}

#[test]
fn error_message_is_kept() {
    let vals = vec![ScriptVal::Int(0), ScriptVal::Int(0)];
    match parse_tick(&vals, 1) {
        Err(e) => assert!(!e.message().is_empty()),
        Ok(_) => panic!("arity two must be rejected"),
    }
}
