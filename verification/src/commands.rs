//! The three commands, as plans.
//!
//! A command does not touch the file system.  It checks its identifiers
//! first and returns the file operations that carry it out, in the order in
//! which they are to be performed; the caller performs them and stops at
//! the first that fails.  An invalid identifier yields no operation at all.

use vstd::prelude::*;
use crate::error::ScaffoldError;
use crate::names::{
    ascii_pascal_form, ascii_snake_form, ascii_type_suffix_form, is_ascii_text,
    lemma_ascii_forms_from, pascal_form_of, pascal_form_shape, snake_form, snake_form_of,
    snake_form_shape, type_suffix_form_of, type_suffix_form_shape, valid_identifier,
};
use crate::names::{ascii_capitalized, with_trailing_d_upcased};
use crate::templates::{
    descriptor_text, entry_point_text, generate_lib_rs, generate_script, join_path,
    manifest_text, render_descriptor, render_manifest, script_text, TemplateStyle, TARGET_DIR,
};

verus! {

/// The directory that holds the sources of a project.
pub const SOURCE_DIR: &'static str = "src";

/// The path of the entry file.
pub const ENTRY_PATH: &'static str = "src/lib.rs";

/// The path of the manifest.
pub const MANIFEST_PATH: &'static str = "Cargo.toml";

/// The file name of the descriptor.
pub const DESCRIPTOR_NAME: &'static str = "rust.gdextension";

/// The script that a template project starts with.
pub const TEMPLATE_SCRIPT: &'static str = "player";

/// The node type of the script that a template project starts with.
pub const TEMPLATE_NODE_TYPE: &'static str = "character-body-2d";

/// One step of a plan.
#[derive(Debug, PartialEq, Eq)]
pub enum FileOp {
    /// Make sure that the directory exists, with the directories above it.
    EnsureDir { path: String },
    /// Write the file, replacing what it held.
    Write { path: String, contents: String },
    /// Read the entry file, register the module in it, and write it back
    /// where that changed it.
    Register { path: String, module: String },
}

/// A step of a plan, with its texts as sequences of characters.
pub enum FileOpView {
    /// The directory at `path` is made sure of.
    EnsureDir { path: Seq<char> },
    /// The file at `path` is written with `contents`.
    Write { path: Seq<char>, contents: Seq<char> },
    /// The module `module` is registered in the entry file at `path`.
    Register { path: Seq<char>, module: Seq<char> },
}

impl View for FileOp {
    type V = FileOpView;

    open spec fn view(&self) -> FileOpView {
        match *self {
            FileOp::EnsureDir { path } => FileOpView::EnsureDir { path: path@ },
            FileOp::Write { path, contents } => FileOpView::Write {
                path: path@,
                contents: contents@,
            },
            FileOp::Register { path, module } => FileOpView::Register {
                path: path@,
                module: module@,
            },
        }
    }
}

/// The steps of a plan, each by its view.
pub open spec fn plan_view(plan: Seq<FileOp>) -> Seq<FileOpView> {
    plan.map_values(|op: FileOp| op@)
}

/// The path of the source file of the module `module`.
pub open spec fn script_path(module: Seq<char>) -> Seq<char> {
    SOURCE_DIR@ + "/"@ + module + ".rs"@
}

/// The plan that initializes a project: the source directory, the entry
/// file, the descriptor at `descriptor_path`, and the manifest.
pub open spec fn startproject_plan(
    script: Seq<char>,
    name: Seq<char>,
    descriptor_path: Seq<char>,
    target_dir: Seq<char>,
) -> Seq<FileOpView> {
    seq![
        FileOpView::EnsureDir { path: SOURCE_DIR@ },
        FileOpView::Write { path: ENTRY_PATH@, contents: entry_point_text(pascal_form_of(script)) },
        FileOpView::Write {
            path: descriptor_path,
            contents: descriptor_text(snake_form_of(name), target_dir),
        },
        FileOpView::Write { path: MANIFEST_PATH@, contents: manifest_text(snake_form_of(name)) },
    ]
}

/// The plan that adds a script: the source directory, the script's source
/// file, and the registration of its module in the entry file.
pub open spec fn script_plan(
    name: Seq<char>,
    typenode: Seq<char>,
    style: TemplateStyle,
) -> Seq<FileOpView> {
    seq![
        FileOpView::EnsureDir { path: SOURCE_DIR@ },
        FileOpView::Write {
            path: script_path(snake_form_of(name)),
            contents: script_text(style, pascal_form_of(name), type_suffix_form_of(typenode)),
        },
        FileOpView::Register { path: ENTRY_PATH@, module: snake_form_of(name) },
    ]
}

/// The plan that adds the script of a template project: the class `Player`,
/// based on the node type `CharacterBody2D`, in the module `player`.
pub open spec fn template_script_plan(style: TemplateStyle) -> Seq<FileOpView> {
    seq![
        FileOpView::EnsureDir { path: SOURCE_DIR@ },
        FileOpView::Write {
            path: "src/player.rs"@,
            contents: script_text(style, "Player"@, "CharacterBody2D"@),
        },
        FileOpView::Register { path: ENTRY_PATH@, module: "player"@ },
    ]
}

/// The plan of a whole scaffold: the project `name`, with `name` as its
/// entry point too, and then the script of a template project.
pub open spec fn template_plan(
    name: Seq<char>,
    descriptor_path: Seq<char>,
    target_dir: Seq<char>,
    style: TemplateStyle,
) -> Seq<FileOpView> {
    startproject_plan(name, name, descriptor_path, target_dir) + template_script_plan(style)
}

/// The template script and its node type are valid ASCII identifiers; their
/// forms are `player`, `Player` and `CharacterBody2D`.
pub proof fn lemma_template_identifiers()
    ensures
        valid_identifier(TEMPLATE_SCRIPT@),
        valid_identifier(TEMPLATE_NODE_TYPE@),
        is_ascii_text(TEMPLATE_SCRIPT@),
        is_ascii_text(TEMPLATE_NODE_TYPE@),
        ascii_snake_form(TEMPLATE_SCRIPT@) == "player"@,
        ascii_pascal_form(TEMPLATE_SCRIPT@) == "Player"@,
        ascii_type_suffix_form(TEMPLATE_NODE_TYPE@) == "CharacterBody2D"@,
{
    let script = TEMPLATE_SCRIPT@;
    let node = TEMPLATE_NODE_TYPE@;
    reveal_strlit("player");
    reveal_strlit("Player");
    reveal_strlit("character-body-2d");
    reveal_strlit("CharacterBody2D");
    assert(script[0] != '-');
    assert(node[0] != '-');
    assert(ascii_snake_form(script) =~= "player"@);

    lemma_ascii_forms_from(script, 0, 6);
    assert(script.skip(0) =~= script);
    assert(script.subrange(0, 6) =~= script);
    assert(ascii_pascal_form(script) =~= "Player"@);

    lemma_ascii_forms_from(node, 0, 9);
    lemma_ascii_forms_from(node, 10, 14);
    lemma_ascii_forms_from(node, 15, 17);
    assert(node.skip(0) =~= node);
    let first = with_trailing_d_upcased(ascii_capitalized(node.subrange(0, 9)));
    let second = with_trailing_d_upcased(ascii_capitalized(node.subrange(10, 14)));
    let third = with_trailing_d_upcased(ascii_capitalized(node.subrange(15, 17)));
    assert(first =~= "CharacterBody2D"@.subrange(0, 9));
    assert(second =~= "CharacterBody2D"@.subrange(9, 13));
    assert(third =~= "CharacterBody2D"@.subrange(13, 15));
    assert(first + (second + third) =~= "CharacterBody2D"@);
}

/// Plans the initialization of a project whose descriptor goes to
/// `descriptor_path` and whose builds lie under `target_dir`.  Both
/// identifiers are checked before anything is planned.
pub fn plan_startproject(
    script: &str,
    name: &str,
    descriptor_path: &str,
    target_dir: &str,
) -> (plan: Result<Vec<FileOp>, ScaffoldError>)
    ensures
        plan is Ok <==> valid_identifier(script@) && valid_identifier(name@),
        plan is Err ==> plan->Err_0 == ScaffoldError::InvalidIdentifier,
        plan is Ok ==> {
            &&& plan_view(plan->Ok_0@) == startproject_plan(
                script@,
                name@,
                descriptor_path@,
                target_dir@,
            )
            &&& pascal_form_shape(script@)
            &&& snake_form_shape(name@)
        },
{
    let entry = match generate_lib_rs(script) {
        Ok(text) => text,
        Err(error) => { return Err(error); },
    };
    let artifact = match snake_form(name) {
        Ok(form) => form,
        Err(error) => { return Err(error); },
    };
    let descriptor = render_descriptor(artifact.as_str(), target_dir);
    let manifest = render_manifest(artifact.as_str());
    let mut plan: Vec<FileOp> = Vec::new();
    plan.push(FileOp::EnsureDir { path: String::from_str(SOURCE_DIR) });
    plan.push(FileOp::Write { path: String::from_str(ENTRY_PATH), contents: entry });
    plan.push(FileOp::Write { path: String::from_str(descriptor_path), contents: descriptor });
    plan.push(FileOp::Write { path: String::from_str(MANIFEST_PATH), contents: manifest });
    assert(plan_view(plan@) =~= startproject_plan(
        script@,
        name@,
        descriptor_path@,
        target_dir@,
    ));
    Ok(plan)
}

/// Plans the initialization of a project: the entry file for the entry
/// point `script`, the descriptor and the manifest for the project `name`.
/// The descriptor goes into `godot_dir`, the directory of the engine's
/// project, and `project_root` is the way from there to this project; the
/// descriptor's file name and the target directory are adjoined to them by
/// the rules of the platform, so the contract leaves the two joined paths
/// open.  Both identifiers are checked before anything is planned.
pub fn handle_startproject(
    script: &str,
    name: &str,
    godot_dir: &str,
    project_root: &str,
) -> (plan: Result<Vec<FileOp>, ScaffoldError>)
    ensures
        plan is Ok <==> valid_identifier(script@) && valid_identifier(name@),
        plan is Err ==> plan->Err_0 == ScaffoldError::InvalidIdentifier,
        plan is Ok ==> {
            &&& exists|descriptor_path: Seq<char>, target_dir: Seq<char>|
                plan_view(plan->Ok_0@) == startproject_plan(
                    script@,
                    name@,
                    descriptor_path,
                    target_dir,
                )
            &&& pascal_form_shape(script@)
            &&& snake_form_shape(name@)
        },
{
    let descriptor_path = join_path(godot_dir, DESCRIPTOR_NAME);
    let target_dir = join_path(project_root, TARGET_DIR);
    let plan = plan_startproject(script, name, descriptor_path.as_str(), target_dir.as_str());
    assert(plan is Ok ==> plan_view(plan->Ok_0@) == startproject_plan(
        script@,
        name@,
        descriptor_path@,
        target_dir@,
    ));
    plan
}

/// Plans the addition of the script `name`, a class based on the node type
/// `typenode`: its source file, named by the snake form of `name`, and the
/// registration of its module in the entry file.  Both identifiers are
/// checked before anything is planned.
pub fn handle_script(
    name: &str,
    typenode: &str,
    style: TemplateStyle,
) -> (plan: Result<Vec<FileOp>, ScaffoldError>)
    ensures
        plan is Ok <==> valid_identifier(name@) && valid_identifier(typenode@),
        plan is Err ==> plan->Err_0 == ScaffoldError::InvalidIdentifier,
        plan is Ok ==> {
            &&& plan_view(plan->Ok_0@) == script_plan(name@, typenode@, style)
            &&& snake_form_shape(name@)
            &&& pascal_form_shape(name@)
            &&& type_suffix_form_shape(typenode@)
        },
{
    let source = match generate_script(name, typenode, style) {
        Ok(text) => text,
        Err(error) => { return Err(error); },
    };
    let module = match snake_form(name) {
        Ok(form) => form,
        Err(error) => { return Err(error); },
    };
    let mut path = String::from_str(SOURCE_DIR);
    path.append("/");
    path.append(module.as_str());
    path.append(".rs");
    let mut plan: Vec<FileOp> = Vec::new();
    plan.push(FileOp::EnsureDir { path: String::from_str(SOURCE_DIR) });
    plan.push(FileOp::Write { path, contents: source });
    plan.push(FileOp::Register { path: String::from_str(ENTRY_PATH), module });
    assert(plan_view(plan@) =~= script_plan(name@, typenode@, style));
    Ok(plan)
}

/// Plans a whole scaffold, with the descriptor at `descriptor_path` and the
/// builds under `target_dir`: the initialization of the project `name`,
/// with `name` as its entry point too, followed by the addition of the
/// script `player`, based on the node type `character-body-2d`.  The
/// identifier is checked before anything is planned.
pub fn plan_template(
    name: &str,
    descriptor_path: &str,
    target_dir: &str,
    style: TemplateStyle,
) -> (plan: Result<Vec<FileOp>, ScaffoldError>)
    ensures
        plan is Ok <==> valid_identifier(name@),
        plan is Err ==> plan->Err_0 == ScaffoldError::InvalidIdentifier,
        plan is Ok ==> {
            &&& plan_view(plan->Ok_0@) == template_plan(
                name@,
                descriptor_path@,
                target_dir@,
                style,
            )
            &&& pascal_form_shape(name@)
            &&& snake_form_shape(name@)
        },
{
    let mut plan = match plan_startproject(name, name, descriptor_path, target_dir) {
        Ok(plan) => plan,
        Err(error) => { return Err(error); },
    };
    proof {
        lemma_template_identifiers();
    }
    let mut script = match handle_script(TEMPLATE_SCRIPT, TEMPLATE_NODE_TYPE, style) {
        Ok(plan) => plan,
        Err(error) => { return Err(error); },
    };
    proof {
        reveal_strlit("src");
        reveal_strlit("/");
        reveal_strlit(".rs");
        reveal_strlit("player");
        reveal_strlit("src/player.rs");
        assert(script_path("player"@) =~= "src/player.rs"@);
        assert(plan_view(script@) =~= template_script_plan(style));
    }
    let ghost first = plan@;
    let ghost second = script@;
    plan.append(&mut script);
    assert(plan_view(plan@) =~= plan_view(first) + plan_view(second));
    Ok(plan)
}

/// Plans a whole scaffold: the initialization of the project `name`, with
/// `name` as its entry point too, followed by the addition of the script
/// `player`, based on the node type `character-body-2d`.  The paths are
/// formed as `handle_startproject` forms them.  The identifier is checked
/// before anything is planned.
pub fn handle_template(
    name: &str,
    godot_dir: &str,
    project_root: &str,
    style: TemplateStyle,
) -> (plan: Result<Vec<FileOp>, ScaffoldError>)
    ensures
        plan is Ok <==> valid_identifier(name@),
        plan is Err ==> plan->Err_0 == ScaffoldError::InvalidIdentifier,
        plan is Ok ==> {
            &&& exists|descriptor_path: Seq<char>, target_dir: Seq<char>|
                plan_view(plan->Ok_0@) == template_plan(name@, descriptor_path, target_dir, style)
            &&& pascal_form_shape(name@)
            &&& snake_form_shape(name@)
        },
{
    let descriptor_path = join_path(godot_dir, DESCRIPTOR_NAME);
    let target_dir = join_path(project_root, TARGET_DIR);
    let plan = plan_template(name, descriptor_path.as_str(), target_dir.as_str(), style);
    assert(plan is Ok ==> plan_view(plan->Ok_0@) == template_plan(
        name@,
        descriptor_path@,
        target_dir@,
        style,
    ));
    plan
}

} // verus!
