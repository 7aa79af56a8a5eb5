//! The ordering categories that presentation can ask for, and the
//! parsing of their names.

use vstd::prelude::*;

use crate::errors::UnknownSortCategory;
use crate::text::ascii_lower;
use crate::text::str_eq_ignore_ascii_case;

verus! {

/// The category by which reports are ordered for presentation.
#[derive(Clone, Copy, Debug, PartialEq, Eq, Structural, Hash)]
pub enum Sort {
    Blanks,
    Comments,
    Code,
    Files,
    Lines,
}

/// The canonical name of a sort category.
pub open spec fn sort_name_spec(c: Sort) -> Seq<char> {
    match c {
        Sort::Blanks => "Blanks"@,
        Sort::Comments => "Comments"@,
        Sort::Code => "Code"@,
        Sort::Files => "Files"@,
        Sort::Lines => "Lines"@,
    }
}

/// No two sort categories share a name, even up to ASCII case.
pub proof fn lemma_sort_name_injective(c1: Sort, c2: Sort)
    requires
        ascii_lower(sort_name_spec(c1)) == ascii_lower(sort_name_spec(c2)),
    ensures
        c1 == c2,
{
    reveal_strlit("Blanks");
    reveal_strlit("Comments");
    reveal_strlit("Code");
    reveal_strlit("Files");
    reveal_strlit("Lines");
    assert(ascii_lower(sort_name_spec(c1)).len() == sort_name_spec(c1).len());
    assert(ascii_lower(sort_name_spec(c2)).len() == sort_name_spec(c2).len());
    if sort_name_spec(c1).len() == sort_name_spec(c2).len() && c1 != c2 {
        assert(ascii_lower(sort_name_spec(c1))[0] == crate::text::lower_char(sort_name_spec(c1)[0]));
        assert(ascii_lower(sort_name_spec(c2))[0] == crate::text::lower_char(sort_name_spec(c2)[0]));
    }
}

impl Sort {
    /// Parses a sort-category name, ignoring ASCII case.  Exactly the
    /// five canonical names are accepted; any other string is handed
    /// back inside the error.
    pub fn from_str(s: &str) -> (r: Result<Sort, UnknownSortCategory>)
        ensures
            match r {
                Ok(c) => ascii_lower(s@) == ascii_lower(sort_name_spec(c)),
                Err(e) => e.name@ == s@ && forall|c: Sort|
                    ascii_lower(s@) != ascii_lower(sort_name_spec(c)),
            },
    {
        proof {
            reveal_strlit("blanks");
            reveal_strlit("comments");
            reveal_strlit("code");
            reveal_strlit("files");
            reveal_strlit("lines");
            reveal_strlit("Blanks");
            reveal_strlit("Comments");
            reveal_strlit("Code");
            reveal_strlit("Files");
            reveal_strlit("Lines");
            lemma_lowered_names();
        }
        if str_eq_ignore_ascii_case(s, "blanks") {
            Ok(Sort::Blanks)
        } else if str_eq_ignore_ascii_case(s, "comments") {
            Ok(Sort::Comments)
        } else if str_eq_ignore_ascii_case(s, "code") {
            Ok(Sort::Code)
        } else if str_eq_ignore_ascii_case(s, "files") {
            Ok(Sort::Files)
        } else if str_eq_ignore_ascii_case(s, "lines") {
            Ok(Sort::Lines)
        } else {
            Err(UnknownSortCategory { name: s.to_owned() })
        }
    }

    /// The canonical name of this category.
    pub fn name(&self) -> (r: &'static str)
        ensures
            r@ == sort_name_spec(*self),
    {
        match self {
            Sort::Blanks => "Blanks",
            Sort::Comments => "Comments",
            Sort::Code => "Code",
            Sort::Files => "Files",
            Sort::Lines => "Lines",
        }
    }
}

/// The lower-case spellings that `from_str` compares against are the
/// ASCII-lowered canonical names, and all of them are ASCII.
proof fn lemma_lowered_names()
    ensures
        vstd::string::is_ascii("blanks"),
        vstd::string::is_ascii("comments"),
        vstd::string::is_ascii("code"),
        vstd::string::is_ascii("files"),
        vstd::string::is_ascii("lines"),
        ascii_lower("blanks"@) == ascii_lower("Blanks"@),
        ascii_lower("comments"@) == ascii_lower("Comments"@),
        ascii_lower("code"@) == ascii_lower("Code"@),
        ascii_lower("files"@) == ascii_lower("Files"@),
        ascii_lower("lines"@) == ascii_lower("Lines"@),
{
    reveal_strlit("blanks");
    reveal_strlit("comments");
    reveal_strlit("code");
    reveal_strlit("files");
    reveal_strlit("lines");
    reveal_strlit("Blanks");
    reveal_strlit("Comments");
    reveal_strlit("Code");
    reveal_strlit("Files");
    reveal_strlit("Lines");
    assert(ascii_lower("blanks"@) =~= ascii_lower("Blanks"@));
    assert(ascii_lower("comments"@) =~= ascii_lower("Comments"@));
    assert(ascii_lower("code"@) =~= ascii_lower("Code"@));
    assert(ascii_lower("files"@) =~= ascii_lower("Files"@));
    assert(ascii_lower("lines"@) =~= ascii_lower("Lines"@));
}

/// The canonical sort-category names, in their listing order.
pub fn sort_types() -> (r: Vec<String>)
    ensures
        r@.len() == 5,
        r@[0]@ == sort_name_spec(Sort::Blanks),
        r@[1]@ == sort_name_spec(Sort::Comments),
        r@[2]@ == sort_name_spec(Sort::Code),
        r@[3]@ == sort_name_spec(Sort::Files),
        r@[4]@ == sort_name_spec(Sort::Lines),
{
    let mut v: Vec<String> = Vec::new();
    v.push("Blanks".to_owned());
    v.push("Comments".to_owned());
    v.push("Code".to_owned());
    v.push("Files".to_owned());
    v.push("Lines".to_owned());
    v
}

} // verus!
