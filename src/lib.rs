//! A terminal color scheme: three named colors with fixed defaults, and an
//! export of the scheme into a string-keyed map.

pub mod scheme;

pub use scheme::{ColorScheme, ColorSchemeView};
pub use scheme::{
    background_key, default_scheme, export_of, lemma_default_export, lemma_export_is_copy,
    lemma_new_deterministic, values_of,
};
pub use vstd::hash_map::StringHashMap;
