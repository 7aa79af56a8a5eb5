//! The error values of the library's lookups.

use vstd::prelude::*;

use crate::language_type::LanguageType;

verus! {

/// A name handed to the registry matched no known language.
///
/// Lookup never falls back to a default variant; the offending string is
/// carried back to the caller instead.
#[derive(Debug, Clone, PartialEq, Eq)]
pub struct UnknownLanguageName {
    pub name: String,
}

/// A name handed to the sort-category parser matched no category.
#[derive(Debug, Clone, PartialEq, Eq)]
pub struct UnknownSortCategory {
    pub name: String,
}

/// A lookup into a `Languages` collection found no entry for the given
/// language.  This is an expected "absence" outcome, not a defect: no file
/// of that language was aggregated.
#[derive(Debug, Clone, Copy, PartialEq, Eq, Structural)]
pub struct LanguageTypeNotFound {
    pub language_type: LanguageType,
}

} // verus!
