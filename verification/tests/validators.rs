use sec_edgar::edgar_query::filing::{
    filing_from_str, to_string, validate_filing_type_string, FilingTypeOption,
};
use sec_edgar::edgar_query::owner::{owner_from_str, to_str, validate_owner_string, OwnerOptions};
use sec_edgar::error::EDGARError;

fn filing_types() -> Vec<(FilingTypeOption, &'static str)> {
    vec![
        (FilingTypeOption::_10K, "10-K"),
        (FilingTypeOption::_10KT, "10-KT"),
        (FilingTypeOption::_10Q, "10-Q"),
        (FilingTypeOption::_10QT, "10-QT"),
        (FilingTypeOption::_8K, "8-K"),
        (FilingTypeOption::_6K, "6-K"),
        (FilingTypeOption::_11K, "11-K"),
        (FilingTypeOption::_20F, "20-F"),
        (FilingTypeOption::_40F, "40-F"),
        (FilingTypeOption::_S1, "S-1"),
        (FilingTypeOption::_S3, "S-3"),
        (FilingTypeOption::_S4, "S-4"),
    ]
}

#[test]
fn owner_options_have_lower_case_texts() {
    assert_eq!(to_str(OwnerOptions::INCLUDE), "include");
    assert_eq!(to_str(OwnerOptions::EXCLUDE), "exclude");
    assert_eq!(to_str(OwnerOptions::ONLY), "only");
}

#[test]
fn owner_round_trip() {
    for option in [OwnerOptions::INCLUDE, OwnerOptions::EXCLUDE, OwnerOptions::ONLY] {
        assert_eq!(owner_from_str(to_str(option)), Ok(option));
        assert_eq!(validate_owner_string(to_str(option)), Ok(to_str(option)));
    }
}

#[test]
fn owner_is_read_in_any_case() {
    assert_eq!(owner_from_str("INCLUDE"), Ok(OwnerOptions::INCLUDE));
    assert_eq!(owner_from_str("Exclude"), Ok(OwnerOptions::EXCLUDE));
    assert_eq!(owner_from_str("oNlY"), Ok(OwnerOptions::ONLY));
    assert_eq!(validate_owner_string("ONLY"), Ok("only"));
}

#[test]
fn unknown_owner_is_refused() {
    for text in ["", "all", "include ", " only", "includes", "exclud", "none"] {
        assert_eq!(owner_from_str(text), Err(EDGARError::OwnerOptionNotFound));
        assert_eq!(validate_owner_string(text), Err(EDGARError::OwnerOptionNotFound));
    }
}

#[test]
fn filing_types_have_upper_case_codes() {
    for (option, code) in filing_types() {
        assert_eq!(to_string(option), code);
    }
}

#[test]
fn filing_type_round_trip() {
    for (option, code) in filing_types() {
        assert_eq!(filing_from_str(code), Ok(option));
        assert_eq!(filing_from_str(to_string(option).as_str()), Ok(option));
        assert_eq!(validate_filing_type_string(code), Ok(code.to_string()));
    }
}

#[test]
fn filing_type_is_read_in_any_case() {
    for (option, code) in filing_types() {
        assert_eq!(filing_from_str(code.to_lowercase().as_str()), Ok(option));
        assert_eq!(
            validate_filing_type_string(code.to_lowercase().as_str()),
            Ok(code.to_string())
        );
    }
    assert_eq!(filing_from_str("10-kT"), Ok(FilingTypeOption::_10KT));
}

#[test]
fn unknown_filing_type_is_refused() {
    for text in ["", "10K", "10-K ", "10_K", "K-10", "10-KQ", "annual"] {
        assert_eq!(filing_from_str(text), Err(EDGARError::FilingTypeNotFound));
        assert_eq!(
            validate_filing_type_string(text),
            Err(EDGARError::FilingTypeNotFound)
        );
    }
}

#[test]
fn errors_have_messages() {
    assert_eq!(EDGARError::RegexErr.message(), "Regex Err");
    assert_eq!(EDGARError::IOError.message(), "IO Error");
    assert_eq!(EDGARError::ReqwestError.message(), "Reqwest Error");
    assert_eq!(EDGARError::AtomSyndicationError.message(), "Atom Syndication Error");
    assert_eq!(EDGARError::UrlParseError.message(), "Url Parse Error");
    assert_eq!(EDGARError::SerdeXMLError.message(), "Serde XML Error");
    assert_eq!(EDGARError::CIKNotFound.message(), "CIK Not Found");
    assert_eq!(EDGARError::FilingTypeNotFound.message(), "Filing Type Not Found");
    assert_eq!(EDGARError::FilingContentNotFound.message(), "Filing Content Not Found");
    assert_eq!(
        EDGARError::FilingContentValueNotFound.message(),
        "Filing Content Value Not Found"
    );
    assert_eq!(EDGARError::UserAgentEnvVarMissing.message(), "User Agent Env Var Missing");
    assert_eq!(EDGARError::GettingFeedFailed.message(), "Getting Feed Failed");
    assert_eq!(EDGARError::OwnerOptionNotFound.message(), "Owner Option Not Found");
}
