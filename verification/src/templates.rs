//! The texts of the generated files.
//!
//! Four files are rendered: the source of a script, the entry file of the
//! extension, the descriptor that tells the engine where the compiled
//! library lies on each platform, and the manifest of the package.  Each
//! text is given as a function of the names that go into it; the renderers
//! build exactly that text.

use vstd::prelude::*;
use std::path::PathBuf;
use crate::entry_file::{anchor, insertion_point, ANCHOR};
use crate::error::ScaffoldError;
use crate::names::{
    pascal_form, pascal_form_of, pascal_form_shape, snake_form, snake_form_of,
    snake_form_shape, type_suffix_form, type_suffix_form_of, type_suffix_form_shape,
    valid_identifier,
};
use crate::text::{contains_text, lemma_first_occurrence_unique, occurs_at};

verus! {

/// The directory below a project in which its builds lie.
pub const TARGET_DIR: &'static str = "target";

/// The folder of the debug builds for the web, below the target directory.
pub const WEB_DEBUG: &'static str = "wasm32-unknown-emscripten/debug";

/// The folder of the release builds for the web, below the target directory.
pub const WEB_RELEASE: &'static str = "wasm32-unknown-emscripten/release";

/// The two shapes of a script's source.
#[derive(Clone, Copy, Debug, PartialEq, Eq, Structural)]
pub enum TemplateStyle {
    /// The class spells out its constructor in the interface block.
    Legacy,
    /// The class is marked `init` and the interface block is empty.
    Compact,
}

/// The name of the interface of a node type.
pub open spec fn interface_name(node_type: Seq<char>) -> Seq<char> {
    "I"@ + node_type
}

/// The imports at the head of a script.
pub open spec fn script_imports(node_type: Seq<char>) -> Seq<char> {
    "use godot::prelude::*;\nuse godot::classes::{"@ + node_type + ", "@ + interface_name(node_type)
        + "};\n\n"@
}

/// The declaration of a script's class.
pub open spec fn script_class(
    style: TemplateStyle,
    struct_name: Seq<char>,
    node_type: Seq<char>,
) -> Seq<char> {
    "#[derive(GodotClass)]\n"@ + (match style {
        TemplateStyle::Legacy => "#[class(base="@,
        TemplateStyle::Compact => "#[class(init, base="@,
    }) + node_type + ")]\npub struct "@ + struct_name + " {\n    base: Base<"@ + node_type
        + ">\n}\n\n"@
}

/// The interface block of a script.
pub open spec fn script_interface(
    style: TemplateStyle,
    struct_name: Seq<char>,
    node_type: Seq<char>,
) -> Seq<char> {
    match style {
        TemplateStyle::Legacy => "#[godot_api]\nimpl "@ + interface_name(node_type) + " for "@
            + struct_name + " {\n    fn init(base: Base<"@ + node_type
            + ">) -> Self {\n        Self { base }\n    }\n}\n"@,
        TemplateStyle::Compact => "#[godot_api]\nimpl "@ + interface_name(node_type) + " for "@
            + struct_name + "  {}\n"@,
    }
}

/// The source of a script: a class named `struct_name`, based on the node
/// type `node_type`, with the interface block of that node type.
pub open spec fn script_text(
    style: TemplateStyle,
    struct_name: Seq<char>,
    node_type: Seq<char>,
) -> Seq<char> {
    script_imports(node_type) + script_class(style, struct_name, node_type) + script_interface(
        style,
        struct_name,
        node_type,
    )
}

/// The entry file of an extension whose marker type is `marker`.  It starts
/// with the anchor line.
pub open spec fn entry_point_text(marker: Seq<char>) -> Seq<char> {
    anchor() + "\nstruct "@ + marker + ";\n\n#[gdextension]\nunsafe impl ExtensionLibrary for "@
        + marker + " {}"@
}

/// One line of the descriptor: where the library lies for one platform.
pub open spec fn library_entry(
    platform: Seq<char>,
    target_dir: Seq<char>,
    folder: Seq<char>,
    prefix: Seq<char>,
    artifact: Seq<char>,
    extension: Seq<char>,
) -> Seq<char> {
    platform + " = \"res://"@ + target_dir + "/"@ + folder + "/"@ + prefix + artifact + extension
        + "\"\n"@
}

/// The head of every descriptor: the fixed settings of the extension.
pub const DESCRIPTOR_HEAD: &'static str =
    "[configuration]\nentry_symbol = \"gdext_rust_init\"\ncompatibility_minimum = 4.3\nreloadable = true\n\n[libraries]\n";

/// The descriptor of the library `artifact`, whose builds lie under
/// `target_dir`: the fixed settings, then one line for each platform.
pub open spec fn descriptor_text(artifact: Seq<char>, target_dir: Seq<char>) -> Seq<char> {
    DESCRIPTOR_HEAD@
        + library_entry("linux.debug.x86_64"@, target_dir, "debug"@, "lib"@, artifact, ".so"@)
        + library_entry("linux.release.x86_64"@, target_dir, "release"@, "lib"@, artifact, ".so"@)
        + library_entry("windows.debug.x86_64"@, target_dir, "debug"@, ""@, artifact, ".dll"@)
        + library_entry("windows.release.x86_64"@, target_dir, "release"@, ""@, artifact, ".dll"@)
        + library_entry("macos.debug"@, target_dir, "debug"@, "lib"@, artifact, ".dylib"@)
        + library_entry("macos.release"@, target_dir, "release"@, "lib"@, artifact, ".dylib"@)
        + library_entry("macos.debug.arm64"@, target_dir, "debug"@, "lib"@, artifact, ".dylib"@)
        + library_entry("macos.release.arm64"@, target_dir, "release"@, "lib"@, artifact, ".dylib"@)
        + library_entry("web.debug.wasm32"@, target_dir, WEB_DEBUG@, ""@, artifact, ".wasm"@)
        + library_entry("web.release.wasm32"@, target_dir, WEB_RELEASE@, ""@, artifact, ".wasm"@)
}

/// The manifest of the package `package`.
pub open spec fn manifest_text(package: Seq<char>) -> Seq<char> {
    "[package]\nname = \""@ + package
        + "\"\nversion = \"0.1.0\"\nedition = \"2024\"\n\n[lib]\ncrate-type = [\"cdylib\"]\n\n[dependencies]\ngodot = { git = \"https://github.com/godot-rust/gdext.git\", branch = \"master\" }\n"@
}

/// Renders the source of a script.
pub fn render_script(style: TemplateStyle, struct_name: &str, node_type: &str) -> (text: String)
    ensures
        text@ == script_text(style, struct_name@, node_type@),
{
    let mut interface = String::from_str("I");
    interface.append(node_type);

    let mut imports = String::from_str("use godot::prelude::*;\nuse godot::classes::{");
    imports.append(node_type);
    imports.append(", ");
    imports.append(interface.as_str());
    imports.append("};\n\n");

    let mut class = String::from_str("#[derive(GodotClass)]\n");
    match style {
        TemplateStyle::Legacy => class.append("#[class(base="),
        TemplateStyle::Compact => class.append("#[class(init, base="),
    }
    class.append(node_type);
    class.append(")]\npub struct ");
    class.append(struct_name);
    class.append(" {\n    base: Base<");
    class.append(node_type);
    class.append(">\n}\n\n");

    let mut block = String::from_str("#[godot_api]\nimpl ");
    block.append(interface.as_str());
    block.append(" for ");
    block.append(struct_name);
    match style {
        TemplateStyle::Legacy => {
            block.append(" {\n    fn init(base: Base<");
            block.append(node_type);
            block.append(">) -> Self {\n        Self { base }\n    }\n}\n");
        },
        TemplateStyle::Compact => {
            block.append("  {}\n");
        },
    }

    let mut text = imports;
    text.append(class.as_str());
    text.append(block.as_str());
    text
}

/// Renders the entry file of an extension.
pub fn render_entry_point(marker: &str) -> (text: String)
    ensures
        text@ == entry_point_text(marker@),
{
    let mut text = String::from_str(ANCHOR);
    text.append("\nstruct ");
    text.append(marker);
    text.append(";\n\n#[gdextension]\nunsafe impl ExtensionLibrary for ");
    text.append(marker);
    text.append(" {}");
    text
}

fn push_library_entry(
    text: &mut String,
    platform: &str,
    target_dir: &str,
    folder: &str,
    prefix: &str,
    artifact: &str,
    extension: &str,
)
    ensures
        final(text)@ == old(text)@ + library_entry(
            platform@,
            target_dir@,
            folder@,
            prefix@,
            artifact@,
            extension@,
        ),
{
    let mut entry = String::from_str(platform);
    entry.append(" = \"res://");
    entry.append(target_dir);
    entry.append("/");
    entry.append(folder);
    entry.append("/");
    entry.append(prefix);
    entry.append(artifact);
    entry.append(extension);
    entry.append("\"\n");
    text.append(entry.as_str());
}

/// Renders the descriptor of a library.
pub fn render_descriptor(artifact: &str, target_dir: &str) -> (text: String)
    ensures
        text@ == descriptor_text(artifact@, target_dir@),
{
    let mut text = String::from_str(DESCRIPTOR_HEAD);
    push_library_entry(&mut text, "linux.debug.x86_64", target_dir, "debug", "lib", artifact, ".so");
    push_library_entry(&mut text, "linux.release.x86_64", target_dir, "release", "lib", artifact, ".so");
    push_library_entry(&mut text, "windows.debug.x86_64", target_dir, "debug", "", artifact, ".dll");
    push_library_entry(&mut text, "windows.release.x86_64", target_dir, "release", "", artifact, ".dll");
    push_library_entry(&mut text, "macos.debug", target_dir, "debug", "lib", artifact, ".dylib");
    push_library_entry(&mut text, "macos.release", target_dir, "release", "lib", artifact, ".dylib");
    push_library_entry(&mut text, "macos.debug.arm64", target_dir, "debug", "lib", artifact, ".dylib");
    push_library_entry(&mut text, "macos.release.arm64", target_dir, "release", "lib", artifact, ".dylib");
    push_library_entry(&mut text, "web.debug.wasm32", target_dir, WEB_DEBUG, "", artifact, ".wasm");
    push_library_entry(&mut text, "web.release.wasm32", target_dir, WEB_RELEASE, "", artifact, ".wasm");
    text
}

/// Renders the manifest of a package.
pub fn render_manifest(package: &str) -> (text: String)
    ensures
        text@ == manifest_text(package@),
{
    let mut text = String::from_str("[package]\nname = \"");
    text.append(package);
    text.append(
        "\"\nversion = \"0.1.0\"\nedition = \"2024\"\n\n[lib]\ncrate-type = [\"cdylib\"]\n\n[dependencies]\ngodot = { git = \"https://github.com/godot-rust/gdext.git\", branch = \"master\" }\n",
    );
    text
}

/// `PathBuf::from_iter` of the standard library, reached through `collect`:
/// `leaf` is adjoined to `base` by the rules of the platform.  Nothing is
/// claimed of the result, which differs between platforms.
#[verifier::external_body]
pub(crate) fn join_path(base: &str, leaf: &str) -> (joined: String) {
    let path: PathBuf = [base, leaf].iter().collect();
    path.to_string_lossy().into_owned()
}

/// Generates the source of the script `name`: a class named by the Pascal
/// form of `name`, based on the node type named by the type-suffix form of
/// `typenode`.  An invalid identifier is rejected.
pub fn generate_script(
    name: &str,
    typenode: &str,
    style: TemplateStyle,
) -> (text: Result<String, ScaffoldError>)
    ensures
        text is Ok <==> valid_identifier(name@) && valid_identifier(typenode@),
        text is Err ==> text->Err_0 == ScaffoldError::InvalidIdentifier,
        text is Ok ==> {
            &&& text->Ok_0@ == script_text(
                style,
                pascal_form_of(name@),
                type_suffix_form_of(typenode@),
            )
            &&& pascal_form_shape(name@)
            &&& type_suffix_form_shape(typenode@)
        },
{
    let struct_name = match pascal_form(name) {
        Ok(form) => form,
        Err(error) => { return Err(error); },
    };
    let node_type = match type_suffix_form(typenode) {
        Ok(form) => form,
        Err(error) => { return Err(error); },
    };
    Ok(render_script(style, struct_name.as_str(), node_type.as_str()))
}

/// Generates the entry file of the extension whose entry point is named
/// `script`: its marker type is named by the Pascal form of `script`.  An
/// invalid identifier is rejected.
pub fn generate_lib_rs(script: &str) -> (text: Result<String, ScaffoldError>)
    ensures
        text is Ok <==> valid_identifier(script@),
        text is Err ==> text->Err_0 == ScaffoldError::InvalidIdentifier,
        text is Ok ==> text->Ok_0@ == entry_point_text(pascal_form_of(script@))
            && pascal_form_shape(script@),
{
    match pascal_form(script) {
        Ok(marker) => Ok(render_entry_point(marker.as_str())),
        Err(error) => Err(error),
    }
}

/// Generates the descriptor of the project `name`: the library is named by
/// the snake form of `name`.  Its builds are looked for in the directory
/// `target` under `godot_project_root`, which is the way from the engine's
/// project to this one; the two are joined by the rules of the platform, so
/// the contract leaves the joined directory open.  An invalid identifier is
/// rejected.
pub fn generate_gdextension(
    name: &str,
    godot_project_root: &str,
) -> (text: Result<String, ScaffoldError>)
    ensures
        text is Ok <==> valid_identifier(name@),
        text is Err ==> text->Err_0 == ScaffoldError::InvalidIdentifier,
        text is Ok ==> snake_form_shape(name@) && exists|target_dir: Seq<char>|
            text->Ok_0@ == descriptor_text(snake_form_of(name@), target_dir),
{
    match snake_form(name) {
        Ok(artifact) => {
            let target_dir = join_path(godot_project_root, TARGET_DIR);
            let text = render_descriptor(artifact.as_str(), target_dir.as_str());
            assert(text@ == descriptor_text(snake_form_of(name@), target_dir@));
            Ok(text)
        },
        Err(error) => Err(error),
    }
}

/// Generates the manifest of the project `name`: the package is named by
/// the snake form of `name`.  An invalid identifier is rejected.
pub fn generate_cargo_toml_file(name: &str) -> (text: Result<String, ScaffoldError>)
    ensures
        text is Ok <==> valid_identifier(name@),
        text is Err ==> text->Err_0 == ScaffoldError::InvalidIdentifier,
        text is Ok ==> text->Ok_0@ == manifest_text(snake_form_of(name@))
            && snake_form_shape(name@),
{
    match snake_form(name) {
        Ok(package) => Ok(render_manifest(package.as_str())),
        Err(error) => Err(error),
    }
}

/// A rendered entry file starts with the anchor, so the first module that
/// is registered in it goes right behind its first line.
pub proof fn lemma_entry_point_starts_with_anchor(marker: Seq<char>)
    ensures
        contains_text(entry_point_text(marker), anchor()),
        insertion_point(entry_point_text(marker)) == anchor().len(),
{
    let entry = entry_point_text(marker);
    assert(entry.subrange(0, anchor().len() as int) =~= anchor());
    assert(occurs_at(entry, anchor(), 0));
    lemma_first_occurrence_unique(entry, anchor(), 0);
}

} // verus!
