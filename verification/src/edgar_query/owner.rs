//! The owner filter of a query. Owners are the people who hold a large part
//! of a company's stock.
use crate::error::EDGARError;
use crate::text::{ascii_lowercase, is_ascii_text, lowercase, same_text, to_lowercase};
use vstd::prelude::*;

verus! {

/// The owner filters that EDGAR knows.
#[derive(Debug, Clone, Copy, PartialEq, Eq, Structural)]
pub enum OwnerOptions {
    /// All documents, whatever their source.
    INCLUDE,
    /// No documents on what directors and officers own.
    EXCLUDE,
    /// Only documents on what directors and officers own.
    ONLY,
}

/// The text of an owner option as EDGAR reads it, in small letters.
pub open spec fn owner_text(owner_option: OwnerOptions) -> Seq<char> {
    match owner_option {
        OwnerOptions::INCLUDE => "include"@,
        OwnerOptions::EXCLUDE => "exclude"@,
        OwnerOptions::ONLY => "only"@,
    }
}

/// The owner option that a text names, whatever the case of its letters.
pub open spec fn owner_of_text(text: Seq<char>) -> Result<OwnerOptions, EDGARError> {
    let low = lowercase(text);
    if low == "include"@ {
        Ok(OwnerOptions::INCLUDE)
    } else if low == "exclude"@ {
        Ok(OwnerOptions::EXCLUDE)
    } else if low == "only"@ {
        Ok(OwnerOptions::ONLY)
    } else {
        Err(EDGARError::OwnerOptionNotFound)
    }
}

/// Reads an owner option, whatever the case of its letters. A text that
/// names none is an error.
pub fn owner_from_str(owner_option: &str) -> (r: Result<OwnerOptions, EDGARError>)
    ensures
        r == owner_of_text(owner_option@),
{
    let low = to_lowercase(owner_option);
    if same_text(low.as_str(), "include") {
        Ok(OwnerOptions::INCLUDE)
    } else if same_text(low.as_str(), "exclude") {
        Ok(OwnerOptions::EXCLUDE)
    } else if same_text(low.as_str(), "only") {
        Ok(OwnerOptions::ONLY)
    } else {
        Err(EDGARError::OwnerOptionNotFound)
    }
}

/// The text of an owner option, in small letters.
pub fn to_str<'a>(owner_option: OwnerOptions) -> (r: &'a str)
    ensures
        r@ == owner_text(owner_option),
{
    match owner_option {
        OwnerOptions::INCLUDE => "include",
        OwnerOptions::EXCLUDE => "exclude",
        OwnerOptions::ONLY => "only",
    }
}

/// What `validate_owner_string` returns for a text: the canonical text of
/// the option that it names.
pub open spec fn valid_owner_text(owner: Seq<char>) -> Result<Seq<char>, EDGARError> {
    match owner_of_text(owner) {
        Ok(option) => Ok(owner_text(option)),
        Err(e) => Err(e),
    }
}

/// Checks a text by reading it as an owner option and writing the option
/// back: the result is the canonical text, or the error of `owner_from_str`.
pub fn validate_owner_string(owner: &str) -> (r: Result<&str, EDGARError>)
    ensures
        match r {
            Ok(text) => valid_owner_text(owner@) == Ok::<Seq<char>, EDGARError>(text@),
            Err(e) => valid_owner_text(owner@) == Err::<Seq<char>, EDGARError>(e),
        },
{
    match owner_from_str(owner) {
        Ok(option) => Ok(to_str(option)),
        Err(e) => Err(e),
    }
}

/// The text of an owner option is ASCII text in small letters, and no two
/// options share a text.
pub proof fn lemma_owner_texts(a: OwnerOptions, b: OwnerOptions)
    ensures
        is_ascii_text(owner_text(a)),
        lowercase(owner_text(a)) == owner_text(a),
        owner_text(a) == owner_text(b) ==> a == b,
{
    reveal_strlit("include");
    reveal_strlit("exclude");
    reveal_strlit("only");
    assert(ascii_lowercase(owner_text(a)) =~= owner_text(a));
    if owner_text(a) == owner_text(b) {
        assert(owner_text(a).len() == owner_text(b).len());
        assert(owner_text(a)[0] == owner_text(b)[0]);
    }
}

/// A text names the owner option whose text is its lower-case form, and a
/// text whose lower-case form is no option's text names none.
pub proof fn lemma_owner_of_text(text: Seq<char>)
    ensures
        match owner_of_text(text) {
            Ok(option) => lowercase(text) == owner_text(option),
            Err(e) => e == EDGARError::OwnerOptionNotFound && forall|option: OwnerOptions|
                lowercase(text) != #[trigger] owner_text(option),
        },
{
    match owner_of_text(text) {
        Ok(option) => {},
        Err(e) => {
            assert forall|option: OwnerOptions| lowercase(text) != #[trigger] owner_text(
                option,
            ) by {
                match option {
                    OwnerOptions::INCLUDE => {},
                    OwnerOptions::EXCLUDE => {},
                    OwnerOptions::ONLY => {},
                }
            }
        },
    }
}

/// Every owner option is read back from its own text, and the text passes
/// validation unchanged.
pub proof fn lemma_owner_text_round_trip(owner_option: OwnerOptions)
    ensures
        owner_of_text(owner_text(owner_option)) == Ok::<OwnerOptions, EDGARError>(owner_option),
        valid_owner_text(owner_text(owner_option)) == Ok::<Seq<char>, EDGARError>(
            owner_text(owner_option),
        ),
{
    lemma_owner_texts(owner_option, owner_option);
    lemma_owner_of_text(owner_text(owner_option));
    match owner_of_text(owner_text(owner_option)) {
        Ok(option) => {
            lemma_owner_texts(option, owner_option);
        },
        Err(e) => {
            assert(lowercase(owner_text(owner_option)) != owner_text(owner_option));
        },
    }
}

/// Reading is blind to the case of ASCII letters: a text of ASCII
/// characters that differs from an option's text in the case of its letters
/// alone names that option.
pub proof fn lemma_owner_case_insensitive(text: Seq<char>, owner_option: OwnerOptions)
    requires
        is_ascii_text(text),
        ascii_lowercase(text) == owner_text(owner_option),
    ensures
        owner_of_text(text) == Ok::<OwnerOptions, EDGARError>(owner_option),
        valid_owner_text(text) == Ok::<Seq<char>, EDGARError>(owner_text(owner_option)),
{
    lemma_owner_of_text(text);
    match owner_of_text(text) {
        Ok(option) => {
            lemma_owner_texts(option, owner_option);
        },
        Err(e) => {
            assert(lowercase(text) != owner_text(owner_option));
        },
    }
}

} // verus!
