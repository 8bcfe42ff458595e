//! Java flag accessors generated from a package's feature-flag declarations.
//!
//! A [`Cache`] holds the flags of one package. [`generate_java_code`] maps each
//! flag to a [`ClassElement`], gathers the elements into a [`Context`], renders
//! the three Java templates with it and returns the rendered files, each under
//! the directory derived from the package name.

pub mod context;
pub mod error;
pub mod flag;
pub mod generate;
pub mod ident;
pub mod json;
pub mod output;
pub mod template;
pub mod text;

pub use context::{any_read_write, create_class_element, create_context, ClassElement, Context};
pub use error::{GenerationError, GenerationErrorKind};
pub use flag::{Cache, FlagState, Item, Permission};
pub use generate::{generate_java_code, rendered_file, template_added};
pub use ident::{
    create_device_config_ident, is_valid_name_ident, is_valid_package_ident, IdentError,
};
pub use json::{class_element_json, context_json};
pub use output::{output_file, package_directory, OutputFile};
pub use template::{FEATURE_FLAGS_IMPL_JAVA, FEATURE_FLAGS_JAVA, FLAGS_JAVA};
pub use text::{replace_char, to_ascii_uppercase, to_ascii_uppercase_char};
