//! A mutable character buffer ("string builder") that accumulates text from
//! heterogeneous inputs and renders it to a single string on demand.
//!
//! The buffer is an ordered sequence of Unicode scalar values together with an
//! internal read cursor used only by the sequential-consumption protocol.
//! Every operation carries a contract that pins its effect on the character
//! sequence down exactly.

mod render;
mod string_builder;

pub use render::Render;
pub use render::bool_rendering;
pub use render::char_rendering;
pub use render::clip;
pub use render::int_rendering;
pub use render::lemma_renderings_concat_push;
pub use render::renderings_concat;
pub use render::uint_rendering;
pub use string_builder::IndexError;
pub use string_builder::StringBuilder;
