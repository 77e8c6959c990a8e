//! A compile-time HTML templating toolkit: a verified template compiler that
//! lowers a tree of markup nodes into an ordered instruction list and the
//! formatter calls it stands for, together with the run-time formatter,
//! content model and escaping that the lowered output targets.

pub mod buffer;
pub mod builtins;
pub mod component;
pub mod content;
pub mod emit;
pub mod escape;
pub mod fmt;
pub mod func;
pub mod html;
pub mod laws;
pub mod node;
pub mod num;
pub mod parsing;
pub mod render;
pub mod sanitize;
pub mod template;

pub use builtins::For;
pub use component::HtmlComponent;
pub use content::RawText;
pub use fmt::{
    FmtError, HtmlAttributeFormatter, HtmlAttributeValue, HtmlContent, HtmlFormatter,
};
pub use html::Html;
pub use parsing::TemplateParser;
pub use sanitize::{SanitizeConfig, Sanitized};
pub use template::Template;
