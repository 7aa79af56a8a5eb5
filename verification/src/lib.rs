//! Verified core of a source-code statistics aggregator.
//!
//! The crate models a closed registry of language syntaxes together with
//! the data structures that collect per-file line counts, merge them per
//! language without double-counting embedded sub-languages, and order them
//! for presentation.  File discovery and per-line classification are left
//! to callers, who feed finished [`stats::Report`] values into
//! [`language::Language`] and [`languages::Languages`].

pub mod config;
pub mod errors;
pub mod language;
pub mod language_type;
pub mod languages;
pub mod sort;
pub mod stats;
pub mod syntax;
pub mod text;

pub use config::Config;
pub use errors::LanguageTypeNotFound;
pub use errors::UnknownLanguageName;
pub use errors::UnknownSortCategory;
pub use language::Language;
pub use language_type::LanguageType;
pub use language_type::language_type_mapper;
pub use languages::Languages;
pub use sort::Sort;
pub use sort::sort_types;
pub use stats::CodeStats;
pub use stats::Report;
