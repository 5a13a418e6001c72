//! The builder of the URL that asks EDGAR for a company's filings.
use super::filing::{
    filing_of_text, filing_text, to_string, valid_filing_text, validate_filing_type_string,
    FilingTypeOption,
};
use super::owner::{
    owner_of_text, owner_text, to_str, valid_owner_text, validate_owner_string, OwnerOptions,
};
use crate::error::EDGARError;
use crate::text::is_ascii_text;
use vstd::prelude::*;
use vstd::string::StringExecFns;
use vstd::utf8::{encode_utf8, is_ascii_chars, is_ascii_chars_encode_utf8};

verus! {

/// A value for a setter of the builder: as text, which the setter checks,
/// or as a value of the setter's own type.
#[allow(missing_docs)]
#[derive(Debug, PartialEq)]
pub enum BuilderInput<'a, T> {
    TypeStr(&'a str),
    TypeTInput(T),
}

/// The fields of a query to EDGAR's company browser, each as it will stand
/// in the URL.
#[derive(Debug, PartialEq)]
pub struct EdgarQueryBuilder {
    /// The address of the company browser, up to and including the `&`
    /// before the first field.
    pub base: String,
    /// The company's CIK, filled to ten digits.
    pub cik: String,
    /// The form code; empty for filings of every type.
    pub filing_type: String,
    /// The latest filing date asked for, as YYYYMMDD; empty for today.
    pub dateb: String,
    /// The owner filter.
    pub owner: String,
    /// The number of filings asked for.
    pub count: String,
    /// A free search text.
    pub search_text: String,
}

/// The contents of an `EdgarQueryBuilder`.
pub struct QueryFields {
    pub base: Seq<char>,
    pub cik: Seq<char>,
    pub filing_type: Seq<char>,
    pub dateb: Seq<char>,
    pub owner: Seq<char>,
    pub count: Seq<char>,
    pub search_text: Seq<char>,
}

impl View for EdgarQueryBuilder {
    type V = QueryFields;

    open spec fn view(&self) -> QueryFields {
        QueryFields {
            base: self.base@,
            cik: self.cik@,
            filing_type: self.filing_type@,
            dateb: self.dateb@,
            owner: self.owner@,
            count: self.count@,
            search_text: self.search_text@,
        }
    }
}

/// The number of bytes that a text takes as UTF-8.
pub open spec fn byte_length(text: Seq<char>) -> nat {
    encode_utf8(text).len()
}

/// `n` times the digit zero.
pub open spec fn zeros(n: nat) -> Seq<char> {
    Seq::new(n, |i: int| '0')
}

/// A CIK filled to ten bytes with leading zeros. One of ten bytes or more
/// is left as it is.
pub open spec fn padded_cik(cik: Seq<char>) -> Seq<char> {
    if byte_length(cik) < 10 {
        zeros((10 - byte_length(cik)) as nat) + cik
    } else {
        cik
    }
}

/// EDGAR asks for a CIK of ten digits; most are shorter. This puts zeros in
/// front of a short one and never cuts a long one.
pub fn add_leading_zeros_to_cik(cik: &str) -> (result: String)
    ensures
        result@ == padded_cik(cik@),
{
    let len: usize = cik.as_bytes().len();
    let mut result = String::new();
    let mut filled: usize = len;
    while filled < 10
        invariant
            len == byte_length(cik@),
            len <= filled,
            filled <= 10 || filled == len,
            result@ == zeros((filled - len) as nat),
        decreases 10 - filled,
    {
        proof {
            assert(zeros((filled - len) as nat).push('0') =~= zeros((filled + 1 - len) as nat));
        }
        result.push('0');
        filled = filled + 1;
    }
    result.append(cik);
    proof {
        if len >= 10 {
            assert(zeros(0) + cik@ =~= cik@);
        }
    }
    result
}

/// Padding keeps the CIK as the end of the result and puts nothing but
/// zeros before it: nothing is cut and nothing else is added.
pub proof fn lemma_padding_keeps_cik(cik: Seq<char>)
    ensures
        padded_cik(cik).len() >= cik.len(),
        padded_cik(cik).subrange(padded_cik(cik).len() - cik.len(), padded_cik(cik).len() as int)
            == cik,
        forall|i: int|
            0 <= i < padded_cik(cik).len() - cik.len() ==> #[trigger] padded_cik(cik)[i] == '0',
        byte_length(cik) >= 10 ==> padded_cik(cik) == cik,
{
    let p = padded_cik(cik);
    assert(p.subrange(p.len() - cik.len(), p.len() as int) =~= cik);
}

/// A CIK of fewer than ten ASCII characters, digits or not, is filled to
/// exactly ten characters; one of ten ASCII characters or more is unchanged.
pub proof fn lemma_padding_of_ascii(cik: Seq<char>)
    requires
        is_ascii_text(cik),
    ensures
        byte_length(cik) == cik.len(),
        cik.len() < 10 ==> padded_cik(cik).len() == 10,
        cik.len() < 10 ==> padded_cik(cik) == zeros((10 - cik.len()) as nat) + cik,
        cik.len() >= 10 ==> padded_cik(cik) == cik,
{
    assert(is_ascii_chars(cik));
    is_ascii_chars_encode_utf8(cik);
}

/// The bytes of two texts, one after the other, are the bytes of the one
/// and the bytes of the other.
pub proof fn lemma_byte_length_of_concat(a: Seq<char>, b: Seq<char>)
    ensures
        byte_length(a + b) == byte_length(a) + byte_length(b),
    decreases a.len(),
{
    if a.len() == 0 {
        assert(a + b =~= b);
    } else {
        assert((a + b)[0] == a[0]);
        assert((a + b).drop_first() =~= a.drop_first() + b);
        lemma_byte_length_of_concat(a.drop_first(), b);
    }
}

/// A padded CIK takes ten bytes at least, and exactly ten where the CIK
/// took fewer.
pub proof fn lemma_padded_length(cik: Seq<char>)
    ensures
        byte_length(padded_cik(cik)) >= 10,
        byte_length(cik) < 10 ==> byte_length(padded_cik(cik)) == 10,
{
    if byte_length(cik) < 10 {
        let fill = zeros((10 - byte_length(cik)) as nat);
        assert(is_ascii_chars(fill));
        is_ascii_chars_encode_utf8(fill);
        lemma_byte_length_of_concat(fill, cik);
    }
}

/// The number of filings that EDGAR returns when `n` are asked for: the
/// greatest of 10, 20, 40, 80 and 100 that is not above `n`, and 10 for
/// less than 10.
pub open spec fn rounded_count(n: int) -> int {
    if n >= 100 {
        100
    } else if n >= 80 {
        80
    } else if n >= 40 {
        40
    } else if n >= 20 {
        20
    } else {
        10
    }
}

/// Whether EDGAR offers `n` as a number of filings.
pub open spec fn is_count_option(n: int) -> bool {
    n == 10 || n == 20 || n == 40 || n == 80 || n == 100
}

/// A number of filings in decimal digits, for the numbers that EDGAR offers.
pub open spec fn count_text(n: int) -> Seq<char> {
    if n == 100 {
        "100"@
    } else if n == 80 {
        "80"@
    } else if n == 40 {
        "40"@
    } else if n == 20 {
        "20"@
    } else {
        "10"@
    }
}

/// Rounds a number of filings down to one that EDGAR offers.
pub fn round_count(n: u32) -> (r: u32)
    ensures
        r == rounded_count(n as int),
{
    if n >= 100 {
        100
    } else if n >= 80 {
        80
    } else if n >= 40 {
        40
    } else if n >= 20 {
        20
    } else {
        10
    }
}

/// Rounding gives a number that EDGAR offers: the greatest that is not
/// above `n`, and 10 where `n` is below all of them. A number that EDGAR
/// offers is left as it is.
pub proof fn lemma_rounded_count(n: int)
    ensures
        is_count_option(rounded_count(n)),
        n >= 10 ==> rounded_count(n) <= n,
        n < 10 ==> rounded_count(n) == 10,
        forall|m: int| is_count_option(m) && m <= n ==> m <= rounded_count(n),
        is_count_option(n) ==> rounded_count(n) == n,
{
}

/// The address of EDGAR's company browser, up to the first field.
pub open spec fn base_text() -> Seq<char> {
    "https://www.sec.gov/cgi-bin/browse-edgar?action=getcompany&"@
}

/// The URL text that the fields of a query make.
pub open spec fn query_text(q: QueryFields) -> Seq<char> {
    q.base + "CIK="@ + q.cik + "&type="@ + q.filing_type + "&dateb="@ + q.dateb + "&owner="@
        + q.owner + "&count="@ + q.count + "&search_text="@ + q.search_text + "&output=atom"@
}

/// Whether the fields are those of a query that the setters can have
/// made: the address is EDGAR's, the CIK is filled, the filing type is none
/// or a known one, the owner filter is one of the three, and the count is
/// one that EDGAR offers. Date and search text are free.
pub open spec fn valid_query(q: QueryFields) -> bool {
    &&& q.base == base_text()
    &&& byte_length(q.cik) >= 10
    &&& (q.filing_type.len() == 0 || exists|option: FilingTypeOption|
        q.filing_type == #[trigger] filing_text(option))
    &&& exists|option: OwnerOptions| q.owner == #[trigger] owner_text(option)
    &&& exists|n: int| is_count_option(n) && q.count == #[trigger] count_text(n)
}

/// What `Url::parse` of the crate `url` makes of a text: the serialization
/// of the URL, or nothing where the text is no absolute URL.
pub uninterp spec fn url_serialization(input: Seq<char>) -> Option<Seq<char>>;

/// Calls `Url::parse` of the crate `url` and hands out the URL as the text
/// that the crate keeps for it. The outcome depends on the input alone;
/// nothing more is claimed of it.
#[verifier::external_body]
pub(crate) fn parse_url(input: &str) -> (r: Result<String, url::ParseError>)
    ensures
        match r {
            Ok(u) => url_serialization(input@) == Some(u@),
            Err(_) => url_serialization(input@) is None,
        },
{
    url::Url::parse(input).map(String::from)
}

/// The text that a filing-type input stands for, or the error of its check.
pub open spec fn filing_input_text(input: BuilderInput<FilingTypeOption>) -> Result<
    Seq<char>,
    EDGARError,
> {
    match input {
        BuilderInput::TypeStr(text) => valid_filing_text(text@),
        BuilderInput::TypeTInput(option) => Ok(filing_text(option)),
    }
}

/// The text that an owner input stands for, or the error of its check.
pub open spec fn owner_input_text(input: BuilderInput<OwnerOptions>) -> Result<
    Seq<char>,
    EDGARError,
> {
    match input {
        BuilderInput::TypeStr(text) => valid_owner_text(text@),
        BuilderInput::TypeTInput(option) => Ok(owner_text(option)),
    }
}

impl EdgarQueryBuilder {
    /// A query for the filings of the company with the given CIK, which is
    /// taken to be valid and is filled to ten digits. The owner filter is
    /// "include", the count 10, and the other fields are empty.
    pub fn new(short_cik: &str) -> (r: Self)
        ensures
            r@ == (QueryFields {
                base: base_text(),
                cik: padded_cik(short_cik@),
                filing_type: Seq::empty(),
                dateb: Seq::empty(),
                owner: "include"@,
                count: "10"@,
                search_text: Seq::empty(),
            }),
            valid_query(r@),
    {
        let base = String::from_str("https://www.sec.gov/cgi-bin/browse-edgar?action=getcompany&");
        let cik = add_leading_zeros_to_cik(short_cik);
        proof {
            lemma_padded_length(short_cik@);
            assert("include"@ == owner_text(OwnerOptions::INCLUDE));
            assert(is_count_option(10) && "10"@ == count_text(10));
        }
        Self {
            base,
            cik,
            filing_type: String::new(),
            dateb: String::new(),
            owner: String::from_str("include"),
            count: String::from_str("10"),
            search_text: String::new(),
        }
    }

    /// The text of the query, before it is checked as a URL.
    pub fn query_string(&self) -> (text: String)
        ensures
            text@ == query_text(self@),
    {
        let mut text = String::new();
        text.append(self.base.as_str());
        text.append("CIK=");
        text.append(self.cik.as_str());
        text.append("&type=");
        text.append(self.filing_type.as_str());
        text.append("&dateb=");
        text.append(self.dateb.as_str());
        text.append("&owner=");
        text.append(self.owner.as_str());
        text.append("&count=");
        text.append(self.count.as_str());
        text.append("&search_text=");
        text.append(self.search_text.as_str());
        text.append("&output=atom");
        proof {
            assert(Seq::<char>::empty() + self.base@ =~= self.base@);
        }
        text
    }

    /// The query as a URL: the text of `query_string` as the URL parser
    /// writes it back. A text that the parser refuses is an error.
    pub fn build(&self) -> (r: Result<String, EDGARError>)
        ensures
            match r {
                Ok(u) => url_serialization(query_text(self@)) == Some(u@),
                Err(e) => e == EDGARError::UrlParseError && url_serialization(query_text(self@))
                    is None,
            },
    {
        let text = self.query_string();
        match parse_url(text.as_str()) {
            Ok(u) => Ok(u),
            Err(e) => Err(EDGARError::from(e)),
        }
    }

    /// Sets the filing type, from a known type or from a text that names
    /// one in any case of letters. A text that names none is an error, and
    /// no query is returned. Without a filing type, filings of every type
    /// are asked for.
    pub fn set_filing_type(self, filing_type: BuilderInput<FilingTypeOption>) -> (r: Result<
        Self,
        EDGARError,
    >)
        ensures
            match filing_input_text(filing_type) {
                Ok(text) => r is Ok && r->Ok_0@ == (QueryFields { filing_type: text, ..self@ }),
                Err(e) => r == Err::<Self, EDGARError>(e),
            },
            valid_query(self@) && r is Ok ==> valid_query(r->Ok_0@),
    {
        proof {
            match filing_type {
                BuilderInput::TypeStr(f) => {
                    if let Ok(option) = filing_of_text(f@) {
                        assert(valid_filing_text(f@) == Ok::<Seq<char>, EDGARError>(
                            filing_text(option),
                        ));
                    }
                },
                BuilderInput::TypeTInput(f) => {
                    assert(filing_input_text(filing_type) == Ok::<Seq<char>, EDGARError>(
                        filing_text(f),
                    ));
                },
            }
        }
        let text = match filing_type {
            BuilderInput::TypeStr(f) => match validate_filing_type_string(f) {
                Ok(t) => t,
                Err(e) => {
                    return Err(e);
                },
            },
            BuilderInput::TypeTInput(f) => to_string(f),
        };
        Ok(
            Self {
                base: self.base,
                cik: self.cik,
                filing_type: text,
                dateb: self.dateb,
                owner: self.owner,
                count: self.count,
                search_text: self.search_text,
            },
        )
    }

    /// Sets the latest filing date, a text of the form YYYYMMDD, which is
    /// stored as it is. EDGAR reads an empty date as today.
    pub fn set_dateb(self, yyyymmdd: &str) -> (r: Self)
        ensures
            r@ == (QueryFields { dateb: yyyymmdd@, ..self@ }),
            valid_query(self@) ==> valid_query(r@),
    {
        Self {
            base: self.base,
            cik: self.cik,
            filing_type: self.filing_type,
            dateb: String::from_str(yyyymmdd),
            owner: self.owner,
            count: self.count,
            search_text: self.search_text,
        }
    }

    /// Sets the owner filter, from an option or from a text that names one
    /// in any case of letters. A text that names none is an error, and no
    /// query is returned.
    pub fn set_owner(self, owner: BuilderInput<OwnerOptions>) -> (r: Result<Self, EDGARError>)
        ensures
            match owner_input_text(owner) {
                Ok(text) => r is Ok && r->Ok_0@ == (QueryFields { owner: text, ..self@ }),
                Err(e) => r == Err::<Self, EDGARError>(e),
            },
            valid_query(self@) && r is Ok ==> valid_query(r->Ok_0@),
    {
        proof {
            match owner {
                BuilderInput::TypeStr(ow) => {
                    if let Ok(option) = owner_of_text(ow@) {
                        assert(valid_owner_text(ow@) == Ok::<Seq<char>, EDGARError>(
                            owner_text(option),
                        ));
                    }
                },
                BuilderInput::TypeTInput(ow) => {
                    assert(owner_input_text(owner) == Ok::<Seq<char>, EDGARError>(
                        owner_text(ow),
                    ));
                },
            }
        }
        let text: &str = match owner {
            BuilderInput::TypeStr(ow) => match validate_owner_string(ow) {
                Ok(t) => t,
                Err(e) => {
                    return Err(e);
                },
            },
            BuilderInput::TypeTInput(ow) => to_str(ow),
        };
        Ok(
            Self {
                base: self.base,
                cik: self.cik,
                filing_type: self.filing_type,
                dateb: self.dateb,
                owner: String::from_str(text),
                count: self.count,
                search_text: self.search_text,
            },
        )
    }

    /// Sets the number of filings asked for. EDGAR offers 10, 20, 40, 80
    /// and 100: the number is rounded down to the greatest of them that it
    /// reaches, and to 10 where it reaches none.
    pub fn set_count(self, count: u32) -> (r: Self)
        ensures
            r@ == (QueryFields { count: count_text(rounded_count(count as int)), ..self@ }),
            valid_query(self@) ==> valid_query(r@),
    {
        let rounded = round_count(count);
        proof {
            assert(is_count_option(rounded_count(count as int)));
        }
        let text: &str = if rounded == 100 {
            "100"
        } else if rounded == 80 {
            "80"
        } else if rounded == 40 {
            "40"
        } else if rounded == 20 {
            "20"
        } else {
            "10"
        };
        Self {
            base: self.base,
            cik: self.cik,
            filing_type: self.filing_type,
            dateb: self.dateb,
            owner: self.owner,
            count: String::from_str(text),
            search_text: self.search_text,
        }
    }

    /// Sets the search text, which is stored as it is.
    pub fn set_search_text(self, search_text: &str) -> (r: Self)
        ensures
            r@ == (QueryFields { search_text: search_text@, ..self@ }),
            valid_query(self@) ==> valid_query(r@),
    {
        Self {
            base: self.base,
            cik: self.cik,
            filing_type: self.filing_type,
            dateb: self.dateb,
            owner: self.owner,
            count: self.count,
            search_text: String::from_str(search_text),
        }
    }
}

} // verus!
