//! The filing types of a query: the form codes under which documents are
//! filed with the SEC.
use crate::error::EDGARError;
use crate::text::{ascii_lowercase, is_ascii_text, lowercase, same_text, to_lowercase};
use vstd::prelude::*;
use vstd::string::StringExecFns;

verus! {

/// The form codes that the library knows by name.
#[allow(non_camel_case_types)]
#[derive(Debug, Clone, Copy, PartialEq, Eq, Structural)]
pub enum FilingTypeOption {
    /// 10-K: annual report.
    _10K,
    /// 10-KT: annual report for a transition period.
    _10KT,
    /// 10-Q: quarterly report.
    _10Q,
    /// 10-QT: quarterly report for a transition period.
    _10QT,
    /// 8-K: current report.
    _8K,
    /// 6-K: report of a foreign private issuer.
    _6K,
    /// 11-K: annual report of an employee stock plan.
    _11K,
    /// 20-F: annual report of a foreign private issuer.
    _20F,
    /// 40-F: annual report of a Canadian issuer.
    _40F,
    /// S-1: registration of securities.
    _S1,
    /// S-3: short registration of securities.
    _S3,
    /// S-4: registration for a business combination.
    _S4,
}

/// The form code of a filing type, in capital letters with its hyphen.
pub open spec fn filing_text(filing_type: FilingTypeOption) -> Seq<char> {
    match filing_type {
        FilingTypeOption::_10K => "10-K"@,
        FilingTypeOption::_10KT => "10-KT"@,
        FilingTypeOption::_10Q => "10-Q"@,
        FilingTypeOption::_10QT => "10-QT"@,
        FilingTypeOption::_8K => "8-K"@,
        FilingTypeOption::_6K => "6-K"@,
        FilingTypeOption::_11K => "11-K"@,
        FilingTypeOption::_20F => "20-F"@,
        FilingTypeOption::_40F => "40-F"@,
        FilingTypeOption::_S1 => "S-1"@,
        FilingTypeOption::_S3 => "S-3"@,
        FilingTypeOption::_S4 => "S-4"@,
    }
}

/// The form code of a filing type in small letters.
pub open spec fn filing_key(filing_type: FilingTypeOption) -> Seq<char> {
    match filing_type {
        FilingTypeOption::_10K => "10-k"@,
        FilingTypeOption::_10KT => "10-kt"@,
        FilingTypeOption::_10Q => "10-q"@,
        FilingTypeOption::_10QT => "10-qt"@,
        FilingTypeOption::_8K => "8-k"@,
        FilingTypeOption::_6K => "6-k"@,
        FilingTypeOption::_11K => "11-k"@,
        FilingTypeOption::_20F => "20-f"@,
        FilingTypeOption::_40F => "40-f"@,
        FilingTypeOption::_S1 => "s-1"@,
        FilingTypeOption::_S3 => "s-3"@,
        FilingTypeOption::_S4 => "s-4"@,
    }
}

/// The filing type that a text names, whatever the case of its letters.
pub open spec fn filing_of_text(text: Seq<char>) -> Result<FilingTypeOption, EDGARError> {
    let low = lowercase(text);
    if low == "10-k"@ {
        Ok(FilingTypeOption::_10K)
    } else if low == "10-kt"@ {
        Ok(FilingTypeOption::_10KT)
    } else if low == "10-q"@ {
        Ok(FilingTypeOption::_10Q)
    } else if low == "10-qt"@ {
        Ok(FilingTypeOption::_10QT)
    } else if low == "8-k"@ {
        Ok(FilingTypeOption::_8K)
    } else if low == "6-k"@ {
        Ok(FilingTypeOption::_6K)
    } else if low == "11-k"@ {
        Ok(FilingTypeOption::_11K)
    } else if low == "20-f"@ {
        Ok(FilingTypeOption::_20F)
    } else if low == "40-f"@ {
        Ok(FilingTypeOption::_40F)
    } else if low == "s-1"@ {
        Ok(FilingTypeOption::_S1)
    } else if low == "s-3"@ {
        Ok(FilingTypeOption::_S3)
    } else if low == "s-4"@ {
        Ok(FilingTypeOption::_S4)
    } else {
        Err(EDGARError::FilingTypeNotFound)
    }
}

/// Reads a form code, whatever the case of its letters. A text that names
/// no known filing type is an error.
pub fn filing_from_str(filing_type: &str) -> (r: Result<FilingTypeOption, EDGARError>)
    ensures
        r == filing_of_text(filing_type@),
{
    let low = to_lowercase(filing_type);
    if same_text(low.as_str(), "10-k") {
        Ok(FilingTypeOption::_10K)
    } else if same_text(low.as_str(), "10-kt") {
        Ok(FilingTypeOption::_10KT)
    } else if same_text(low.as_str(), "10-q") {
        Ok(FilingTypeOption::_10Q)
    } else if same_text(low.as_str(), "10-qt") {
        Ok(FilingTypeOption::_10QT)
    } else if same_text(low.as_str(), "8-k") {
        Ok(FilingTypeOption::_8K)
    } else if same_text(low.as_str(), "6-k") {
        Ok(FilingTypeOption::_6K)
    } else if same_text(low.as_str(), "11-k") {
        Ok(FilingTypeOption::_11K)
    } else if same_text(low.as_str(), "20-f") {
        Ok(FilingTypeOption::_20F)
    } else if same_text(low.as_str(), "40-f") {
        Ok(FilingTypeOption::_40F)
    } else if same_text(low.as_str(), "s-1") {
        Ok(FilingTypeOption::_S1)
    } else if same_text(low.as_str(), "s-3") {
        Ok(FilingTypeOption::_S3)
    } else if same_text(low.as_str(), "s-4") {
        Ok(FilingTypeOption::_S4)
    } else {
        Err(EDGARError::FilingTypeNotFound)
    }
}

/// The form code of a filing type, in capital letters with its hyphen.
pub fn to_string(filing_type: FilingTypeOption) -> (r: String)
    ensures
        r@ == filing_text(filing_type),
{
    let code: &str = match filing_type {
        FilingTypeOption::_10K => "10-K",
        FilingTypeOption::_10KT => "10-KT",
        FilingTypeOption::_10Q => "10-Q",
        FilingTypeOption::_10QT => "10-QT",
        FilingTypeOption::_8K => "8-K",
        FilingTypeOption::_6K => "6-K",
        FilingTypeOption::_11K => "11-K",
        FilingTypeOption::_20F => "20-F",
        FilingTypeOption::_40F => "40-F",
        FilingTypeOption::_S1 => "S-1",
        FilingTypeOption::_S3 => "S-3",
        FilingTypeOption::_S4 => "S-4",
    };
    String::from_str(code)
}

/// What `validate_filing_type_string` returns for a text: the canonical
/// form code of the filing type that it names.
pub open spec fn valid_filing_text(filing_type: Seq<char>) -> Result<Seq<char>, EDGARError> {
    match filing_of_text(filing_type) {
        Ok(option) => Ok(filing_text(option)),
        Err(e) => Err(e),
    }
}

/// Checks a text by reading it as a filing type and writing the type back:
/// the result is the canonical form code, or the error of `filing_from_str`.
pub fn validate_filing_type_string(filing_type: &str) -> (r: Result<String, EDGARError>)
    ensures
        match r {
            Ok(text) => valid_filing_text(filing_type@) == Ok::<Seq<char>, EDGARError>(text@),
            Err(e) => valid_filing_text(filing_type@) == Err::<Seq<char>, EDGARError>(e),
        },
{
    match filing_from_str(filing_type) {
        Ok(option) => Ok(to_string(option)),
        Err(e) => Err(e),
    }
}

/// Brings the characters of every form code into the proof.
pub proof fn lemma_filing_codes()
    ensures
        "10-K"@ == seq!['1', '0', '-', 'K'],
        "10-k"@ == seq!['1', '0', '-', 'k'],
        "10-KT"@ == seq!['1', '0', '-', 'K', 'T'],
        "10-kt"@ == seq!['1', '0', '-', 'k', 't'],
        "10-Q"@ == seq!['1', '0', '-', 'Q'],
        "10-q"@ == seq!['1', '0', '-', 'q'],
        "10-QT"@ == seq!['1', '0', '-', 'Q', 'T'],
        "10-qt"@ == seq!['1', '0', '-', 'q', 't'],
        "8-K"@ == seq!['8', '-', 'K'],
        "8-k"@ == seq!['8', '-', 'k'],
        "6-K"@ == seq!['6', '-', 'K'],
        "6-k"@ == seq!['6', '-', 'k'],
        "11-K"@ == seq!['1', '1', '-', 'K'],
        "11-k"@ == seq!['1', '1', '-', 'k'],
        "20-F"@ == seq!['2', '0', '-', 'F'],
        "20-f"@ == seq!['2', '0', '-', 'f'],
        "40-F"@ == seq!['4', '0', '-', 'F'],
        "40-f"@ == seq!['4', '0', '-', 'f'],
        "S-1"@ == seq!['S', '-', '1'],
        "s-1"@ == seq!['s', '-', '1'],
        "S-3"@ == seq!['S', '-', '3'],
        "s-3"@ == seq!['s', '-', '3'],
        "S-4"@ == seq!['S', '-', '4'],
        "s-4"@ == seq!['s', '-', '4'],
{
    reveal_strlit("10-K");
    reveal_strlit("10-k");
    assert("10-K"@ =~= seq!['1', '0', '-', 'K']);
    assert("10-k"@ =~= seq!['1', '0', '-', 'k']);
    reveal_strlit("10-KT");
    reveal_strlit("10-kt");
    assert("10-KT"@ =~= seq!['1', '0', '-', 'K', 'T']);
    assert("10-kt"@ =~= seq!['1', '0', '-', 'k', 't']);
    reveal_strlit("10-Q");
    reveal_strlit("10-q");
    assert("10-Q"@ =~= seq!['1', '0', '-', 'Q']);
    assert("10-q"@ =~= seq!['1', '0', '-', 'q']);
    reveal_strlit("10-QT");
    reveal_strlit("10-qt");
    assert("10-QT"@ =~= seq!['1', '0', '-', 'Q', 'T']);
    assert("10-qt"@ =~= seq!['1', '0', '-', 'q', 't']);
    reveal_strlit("8-K");
    reveal_strlit("8-k");
    assert("8-K"@ =~= seq!['8', '-', 'K']);
    assert("8-k"@ =~= seq!['8', '-', 'k']);
    reveal_strlit("6-K");
    reveal_strlit("6-k");
    assert("6-K"@ =~= seq!['6', '-', 'K']);
    assert("6-k"@ =~= seq!['6', '-', 'k']);
    reveal_strlit("11-K");
    reveal_strlit("11-k");
    assert("11-K"@ =~= seq!['1', '1', '-', 'K']);
    assert("11-k"@ =~= seq!['1', '1', '-', 'k']);
    reveal_strlit("20-F");
    reveal_strlit("20-f");
    assert("20-F"@ =~= seq!['2', '0', '-', 'F']);
    assert("20-f"@ =~= seq!['2', '0', '-', 'f']);
    reveal_strlit("40-F");
    reveal_strlit("40-f");
    assert("40-F"@ =~= seq!['4', '0', '-', 'F']);
    assert("40-f"@ =~= seq!['4', '0', '-', 'f']);
    reveal_strlit("S-1");
    reveal_strlit("s-1");
    assert("S-1"@ =~= seq!['S', '-', '1']);
    assert("s-1"@ =~= seq!['s', '-', '1']);
    reveal_strlit("S-3");
    reveal_strlit("s-3");
    assert("S-3"@ =~= seq!['S', '-', '3']);
    assert("s-3"@ =~= seq!['s', '-', '3']);
    reveal_strlit("S-4");
    reveal_strlit("s-4");
    assert("S-4"@ =~= seq!['S', '-', '4']);
    assert("s-4"@ =~= seq!['s', '-', '4']);
}

/// The small-letter key of a filing type is its form code in lower case,
/// and no two filing types share a key.
pub proof fn lemma_filing_keys(a: FilingTypeOption, b: FilingTypeOption)
    ensures
        is_ascii_text(filing_text(a)),
        lowercase(filing_text(a)) == filing_key(a),
        lowercase(filing_key(a)) == filing_key(a),
        filing_key(a) == filing_key(b) ==> a == b,
{
    lemma_filing_codes();
    assert(ascii_lowercase(filing_text(a)) =~= filing_key(a));
    assert(ascii_lowercase(filing_key(a)) =~= filing_key(a));
    if filing_key(a) == filing_key(b) {
        let x = filing_key(a);
        let y = filing_key(b);
        assert(x.len() == y.len());
        assert(x[0] == y[0]);
        assert(x[1] == y[1]);
        assert(x[2] == y[2]);
        if x.len() > 3 {
            assert(x[3] == y[3]);
        }
        if x.len() > 4 {
            assert(x[4] == y[4]);
        }
    }
}

/// A text names the filing type whose key is its lower-case form, and a
/// text whose lower-case form is no key names none.
pub proof fn lemma_filing_of_text(text: Seq<char>)
    ensures
        match filing_of_text(text) {
            Ok(option) => lowercase(text) == filing_key(option),
            Err(e) => e == EDGARError::FilingTypeNotFound && forall|option: FilingTypeOption|
                lowercase(text) != #[trigger] filing_key(option),
        },
{
    match filing_of_text(text) {
        Ok(option) => {},
        Err(e) => {
            assert forall|option: FilingTypeOption|
                lowercase(text) != #[trigger] filing_key(option) by {
                match option {
                    FilingTypeOption::_10K => {},
                    FilingTypeOption::_10KT => {},
                    FilingTypeOption::_10Q => {},
                    FilingTypeOption::_10QT => {},
                    FilingTypeOption::_8K => {},
                    FilingTypeOption::_6K => {},
                    FilingTypeOption::_11K => {},
                    FilingTypeOption::_20F => {},
                    FilingTypeOption::_40F => {},
                    FilingTypeOption::_S1 => {},
                    FilingTypeOption::_S3 => {},
                    FilingTypeOption::_S4 => {},
                }
            }
        },
    }
}

/// Every filing type is read back from its own form code, and the form
/// code passes validation unchanged.
pub proof fn lemma_filing_text_round_trip(filing_type: FilingTypeOption)
    ensures
        filing_of_text(filing_text(filing_type)) == Ok::<FilingTypeOption, EDGARError>(
            filing_type,
        ),
        valid_filing_text(filing_text(filing_type)) == Ok::<Seq<char>, EDGARError>(
            filing_text(filing_type),
        ),
{
    lemma_filing_keys(filing_type, filing_type);
    lemma_filing_of_text(filing_text(filing_type));
    match filing_of_text(filing_text(filing_type)) {
        Ok(option) => {
            lemma_filing_keys(option, filing_type);
        },
        Err(e) => {
            assert(lowercase(filing_text(filing_type)) != filing_key(filing_type));
        },
    }
}

/// Reading is blind to the case of ASCII letters: a text of ASCII
/// characters that differs from a form code in the case of its letters
/// alone names that filing type.
pub proof fn lemma_filing_case_insensitive(text: Seq<char>, filing_type: FilingTypeOption)
    requires
        is_ascii_text(text),
        ascii_lowercase(text) == ascii_lowercase(filing_text(filing_type)),
    ensures
        filing_of_text(text) == Ok::<FilingTypeOption, EDGARError>(filing_type),
        valid_filing_text(text) == Ok::<Seq<char>, EDGARError>(filing_text(filing_type)),
{
    lemma_filing_keys(filing_type, filing_type);
    lemma_filing_of_text(text);
    match filing_of_text(text) {
        Ok(option) => {
            lemma_filing_keys(option, filing_type);
        },
        Err(e) => {
            assert(lowercase(text) != filing_key(filing_type));
        },
    }
}

} // verus!
