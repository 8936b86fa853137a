use gdext_cli::templates::{
    generate_cargo_toml_file, generate_gdextension, generate_lib_rs, generate_script,
    render_descriptor, render_entry_point, render_manifest, render_script, TemplateStyle,
};
use gdext_cli::ScaffoldError;

fn lines(parts: &[&str]) -> String {
    parts.join("\n")
}

fn compact_player() -> String {
    lines(&[
        "use godot::prelude::*;",
        "use godot::classes::{CharacterBody2D, ICharacterBody2D};",
        "",
        "#[derive(GodotClass)]",
        "#[class(init, base=CharacterBody2D)]",
        "pub struct Player {",
        "    base: Base<CharacterBody2D>",
        "}",
        "",
        "#[godot_api]",
        "impl ICharacterBody2D for Player  {}",
        "",
    ])
}

fn legacy_player() -> String {
    lines(&[
        "use godot::prelude::*;",
        "use godot::classes::{CharacterBody2D, ICharacterBody2D};",
        "",
        "#[derive(GodotClass)]",
        "#[class(base=CharacterBody2D)]",
        "pub struct Player {",
        "    base: Base<CharacterBody2D>",
        "}",
        "",
        "#[godot_api]",
        "impl ICharacterBody2D for Player {",
        "    fn init(base: Base<CharacterBody2D>) -> Self {",
        "        Self { base }",
        "    }",
        "}",
        "",
    ])
}

fn descriptor(target: &str, name: &str) -> String {
    let head = lines(&[
        "[configuration]",
        "entry_symbol = \"gdext_rust_init\"",
        "compatibility_minimum = 4.3",
        "reloadable = true",
        "",
        "[libraries]",
        "",
    ]);
    let body = [
        format!("linux.debug.x86_64 = \"res://{target}/debug/lib{name}.so\"\n"),
        format!("linux.release.x86_64 = \"res://{target}/release/lib{name}.so\"\n"),
        format!("windows.debug.x86_64 = \"res://{target}/debug/{name}.dll\"\n"),
        format!("windows.release.x86_64 = \"res://{target}/release/{name}.dll\"\n"),
        format!("macos.debug = \"res://{target}/debug/lib{name}.dylib\"\n"),
        format!("macos.release = \"res://{target}/release/lib{name}.dylib\"\n"),
        format!("macos.debug.arm64 = \"res://{target}/debug/lib{name}.dylib\"\n"),
        format!("macos.release.arm64 = \"res://{target}/release/lib{name}.dylib\"\n"),
        format!("web.debug.wasm32 = \"res://{target}/wasm32-unknown-emscripten/debug/{name}.wasm\"\n"),
        format!("web.release.wasm32 = \"res://{target}/wasm32-unknown-emscripten/release/{name}.wasm\"\n"),
    ];
    head + &body.concat()
}

fn manifest(name: &str) -> String {
    let mut text = String::from("[package]\nname = \"");
    text.push_str(name);
    text.push_str("\"\nversion = \"0.1.0\"\nedition = \"2024\"\n\n[lib]\ncrate-type = [\"cdylib\"]\n\n");
    text.push_str("[dependencies]\ngodot = { git = \"https://github.com/godot-rust/gdext.git\", branch = \"master\" }\n");
    text
}

#[test]
fn render_script_compact() {
    assert_eq!(render_script(TemplateStyle::Compact, "Player", "CharacterBody2D"), compact_player());
}

#[test]
fn render_script_legacy() {
    assert_eq!(render_script(TemplateStyle::Legacy, "Player", "CharacterBody2D"), legacy_player());
}

#[test]
fn render_script_puts_the_names_in_as_they_are() {
    let text = render_script(TemplateStyle::Compact, "my thing", "");
    assert_eq!(
        text,
        "use godot::prelude::*;\nuse godot::classes::{, I};\n\n#[derive(GodotClass)]\n#[class(init, base=)]\npub struct my thing {\n    base: Base<>\n}\n\n#[godot_api]\nimpl I for my thing  {}\n"
    );
}

#[test]
fn generate_script_derives_the_names() {
    assert_eq!(generate_script("player", "character-body-2d", TemplateStyle::Compact), Ok(compact_player()));
    assert_eq!(generate_script("player", "character-body-2d", TemplateStyle::Legacy), Ok(legacy_player()));
    let text = generate_script("health-bar", "node", TemplateStyle::Compact).unwrap();
    assert!(text.contains("use godot::classes::{Node, INode};\n"));
    assert!(text.contains("#[class(init, base=Node)]\npub struct HealthBar {\n    base: Base<Node>\n}\n"));
    assert!(text.ends_with("#[godot_api]\nimpl INode for HealthBar  {}\n"));
}

#[test]
fn generate_script_rejects_an_invalid_identifier() {
    assert_eq!(generate_script("", "node", TemplateStyle::Compact), Err(ScaffoldError::InvalidIdentifier));
    assert_eq!(generate_script("player", "", TemplateStyle::Compact), Err(ScaffoldError::InvalidIdentifier));
    assert_eq!(generate_script("-", "-", TemplateStyle::Legacy), Err(ScaffoldError::InvalidIdentifier));
}

#[test]
fn render_entry_point_exact() {
    assert_eq!(
        render_entry_point("MyGame"),
        "use godot::prelude::*;\n\nstruct MyGame;\n\n#[gdextension]\nunsafe impl ExtensionLibrary for MyGame {}"
    );
}

#[test]
fn generate_lib_rs_uses_the_pascal_form() {
    assert_eq!(
        generate_lib_rs("my-game"),
        Ok(String::from(
            "use godot::prelude::*;\n\nstruct MyGame;\n\n#[gdextension]\nunsafe impl ExtensionLibrary for MyGame {}"
        ))
    );
    assert_eq!(generate_lib_rs("scripts"), Ok(render_entry_point("Scripts")));
    assert_eq!(generate_lib_rs("character-body-2d"), Ok(render_entry_point("CharacterBody2d")));
}

#[test]
fn generate_lib_rs_rejects_an_invalid_identifier() {
    assert_eq!(generate_lib_rs(""), Err(ScaffoldError::InvalidIdentifier));
    assert_eq!(generate_lib_rs("--"), Err(ScaffoldError::InvalidIdentifier));
}

#[test]
fn render_descriptor_exact() {
    let expected = lines(&[
        "[configuration]",
        "entry_symbol = \"gdext_rust_init\"",
        "compatibility_minimum = 4.3",
        "reloadable = true",
        "",
        "[libraries]",
        "linux.debug.x86_64 = \"res://../rust/target/debug/libmy_game.so\"",
        "linux.release.x86_64 = \"res://../rust/target/release/libmy_game.so\"",
        "windows.debug.x86_64 = \"res://../rust/target/debug/my_game.dll\"",
        "windows.release.x86_64 = \"res://../rust/target/release/my_game.dll\"",
        "macos.debug = \"res://../rust/target/debug/libmy_game.dylib\"",
        "macos.release = \"res://../rust/target/release/libmy_game.dylib\"",
        "macos.debug.arm64 = \"res://../rust/target/debug/libmy_game.dylib\"",
        "macos.release.arm64 = \"res://../rust/target/release/libmy_game.dylib\"",
        "web.debug.wasm32 = \"res://../rust/target/wasm32-unknown-emscripten/debug/my_game.wasm\"",
        "web.release.wasm32 = \"res://../rust/target/wasm32-unknown-emscripten/release/my_game.wasm\"",
        "",
    ]);
    assert_eq!(render_descriptor("my_game", "../rust/target"), expected);
    assert_eq!(render_descriptor("my_game", "../rust/target"), descriptor("../rust/target", "my_game"));
}

#[test]
fn generate_gdextension_joins_the_target_directory_to_the_root() {
    let sep = std::path::MAIN_SEPARATOR;
    assert_eq!(
        generate_gdextension("my-game", "../rust"),
        Ok(descriptor(&format!("../rust{sep}target"), "my_game"))
    );
    assert_eq!(
        generate_gdextension("My-Game", ".."),
        Ok(descriptor(&format!("..{sep}target"), "my_game"))
    );
}

#[test]
fn generate_gdextension_with_an_empty_root_looks_in_target() {
    assert_eq!(generate_gdextension("game", ""), Ok(descriptor("target", "game")));
    let text = generate_gdextension("game", "").unwrap();
    assert!(text.contains("linux.debug.x86_64 = \"res://target/debug/libgame.so\"\n"));
}

#[test]
fn generate_gdextension_rejects_an_invalid_identifier() {
    assert_eq!(generate_gdextension("", ".."), Err(ScaffoldError::InvalidIdentifier));
    assert_eq!(generate_gdextension("-", ""), Err(ScaffoldError::InvalidIdentifier));
}

#[test]
fn render_manifest_exact() {
    let expected = lines(&[
        "[package]",
        "name = \"my_game\"",
        "version = \"0.1.0\"",
        "edition = \"2024\"",
        "",
        "[lib]",
        "crate-type = [\"cdylib\"]",
        "",
        "[dependencies]",
        "godot = { git = \"https://github.com/godot-rust/gdext.git\", branch = \"master\" }",
        "",
    ]);
    assert_eq!(render_manifest("my_game"), expected);
}

#[test]
fn generate_cargo_toml_file_uses_the_snake_form() {
    assert_eq!(generate_cargo_toml_file("my-game"), Ok(manifest("my_game")));
    assert_eq!(generate_cargo_toml_file("My-Game"), Ok(manifest("my_game")));
    assert_eq!(generate_cargo_toml_file("game"), Ok(render_manifest("game")));
}

#[test]
fn generate_cargo_toml_file_rejects_an_invalid_identifier() {
    assert_eq!(generate_cargo_toml_file(""), Err(ScaffoldError::InvalidIdentifier));
    assert_eq!(generate_cargo_toml_file("---"), Err(ScaffoldError::InvalidIdentifier));
}
