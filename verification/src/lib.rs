//! Scaffolding for Godot native-extension projects written in Rust.
//!
//! The crate turns short kebab-case identifiers into the text of the files
//! that make up such a project, and registers generated script modules in the
//! project's entry file without ever listing one twice.  Nothing here touches
//! the file system: the command functions return the list of file operations
//! to carry out, in order.
//!
//! - `names`: the snake, Pascal and type-suffix forms of an identifier;
//! - `templates`: the texts of the generated files;
//! - `entry_file`: the registration of a module in the entry file;
//! - `commands`: the plans of the three commands;
//! - `text`: the search for one text in another;
//! - `error`: the failures.

pub mod commands;
pub mod entry_file;
pub mod error;
pub mod names;
pub mod templates;
pub mod text;

pub use commands::{handle_script, handle_startproject, handle_template, FileOp};
pub use entry_file::{register_module, update_entry, EntryUpdate, RegistrationStatus};
pub use error::ScaffoldError;
pub use names::{pascal_form, snake_form, type_suffix_form};
pub use templates::{
    generate_cargo_toml_file, generate_gdextension, generate_lib_rs, generate_script,
    TemplateStyle,
};
