//! Content-binding protocol of a text-template rendering engine.
//!
//! Host values expose themselves to a template renderer through the
//! [`Content`] trait: truthiness, capacity estimation, scalar rendering
//! (escaped, unescaped, or with markup), section rendering, and
//! name-keyed field dispatch. Output goes through an [`Encoder`] sink,
//! the only source of failure at this layer.

pub mod adapters;
pub mod content;
pub mod decimal;
pub mod encoding;
pub mod fields;
pub mod laws;
pub mod scalars;
pub mod sequences;
pub mod text;
pub mod template;
pub mod wrappers;

pub use content::Content;
pub use content::Variable;
pub use encoding::Encoder;
pub use encoding::HtmlEncoder;
pub use encoding::LimitedEncoder;
pub use fields::FieldMap;
pub use template::Block;
pub use template::Section;
pub use template::Template;
