//! From a ticker symbol to the CIK of the company, by way of the SEC's
//! ticker dictionary.
use super::edgar_query_builder::{parse_url, url_serialization};
use crate::error::EDGARError;
use crate::text::{
    ascii_lowercase, ascii_uppercase, chars_to_string, is_ascii_text, is_space, lemma_skip_spaces,
    lemma_skip_word, lines_of, lowercase, pass_spaces, pass_word, rows, same_text, skip_spaces,
    skip_word, split_lines, str_chars, to_lowercase,
};
use vstd::prelude::*;
use vstd::string::StringExecFns;

verus! {

/// Where the ticker dictionary is read from.
#[derive(Debug, PartialEq)]
pub enum CIKDictionaryLocation {
    /// The path of a local copy of the dictionary.
    FilePath(String),
    /// The address of the dictionary at the SEC.
    Url(String),
}

/// Finds the CIK, without leading zeros, of a ticker symbol.
#[derive(Debug, PartialEq)]
pub struct CIKQuery {
    location: CIKDictionaryLocation,
}

/// The address of the ticker dictionary at the SEC.
pub open spec fn ticker_url() -> Seq<char> {
    "https://www.sec.gov/include/ticker.txt"@
}

/// The record that a dictionary line holds: its two words, the ticker and
/// the CIK, with white space between and around them. A line of fewer or
/// of more than two words holds none.
pub open spec fn line_record(line: Seq<char>) -> Option<(Seq<char>, Seq<char>)> {
    let a = skip_spaces(line, 0);
    let b = skip_word(line, a);
    let c = skip_spaces(line, b);
    let d = skip_word(line, c);
    if a < b && c < d && skip_spaces(line, d) == line.len() {
        Some((line.subrange(a, b), line.subrange(c, d)))
    } else {
        None
    }
}

/// Whether every character of `s` is white space.
pub open spec fn is_blank(s: Seq<char>) -> bool {
    forall|k: int| 0 <= k < s.len() ==> is_space(#[trigger] s[k])
}

/// Whether `s` is a word: not empty and without white space.
pub open spec fn is_word(s: Seq<char>) -> bool {
    s.len() > 0 && forall|k: int| 0 <= k < s.len() ==> !is_space(#[trigger] s[k])
}

/// Whether `line` is made of exactly the two words `ticker` and `cik`:
/// white space or nothing, the ticker, white space, the CIK, white space or
/// nothing.
pub open spec fn is_record_line(
    line: Seq<char>,
    lead: Seq<char>,
    ticker: Seq<char>,
    gap: Seq<char>,
    cik: Seq<char>,
    trail: Seq<char>,
) -> bool {
    &&& line == lead + ticker + gap + cik + trail
    &&& is_blank(lead)
    &&& is_word(ticker)
    &&& is_blank(gap)
    &&& gap.len() > 0
    &&& is_word(cik)
    &&& is_blank(trail)
}

/// A line cut at four places, with white space before the first, between
/// the second and the third and after the fourth, and none elsewhere, is
/// made of exactly two words.
proof fn lemma_two_words_between(line: Seq<char>, a: int, b: int, c: int, d: int)
    requires
        0 <= a < b < c < d <= line.len(),
        forall|k: int| 0 <= k < a ==> is_space(#[trigger] line[k]),
        forall|k: int| a <= k < b ==> !is_space(#[trigger] line[k]),
        forall|k: int| b <= k < c ==> is_space(#[trigger] line[k]),
        forall|k: int| c <= k < d ==> !is_space(#[trigger] line[k]),
        forall|k: int| d <= k < line.len() ==> is_space(#[trigger] line[k]),
    ensures
        is_record_line(
            line,
            line.subrange(0, a),
            line.subrange(a, b),
            line.subrange(b, c),
            line.subrange(c, d),
            line.subrange(d, line.len() as int),
        ),
{
    let lead = line.subrange(0, a);
    let ticker = line.subrange(a, b);
    let gap = line.subrange(b, c);
    let cik = line.subrange(c, d);
    let trail = line.subrange(d, line.len() as int);
    assert(line =~= lead + ticker + gap + cik + trail);
    assert forall|k: int| 0 <= k < lead.len() implies is_space(#[trigger] lead[k]) by {
        assert(lead[k] == line[k]);
    }
    assert forall|k: int| 0 <= k < ticker.len() implies !is_space(#[trigger] ticker[k]) by {
        assert(ticker[k] == line[a + k]);
    }
    assert forall|k: int| 0 <= k < gap.len() implies is_space(#[trigger] gap[k]) by {
        assert(gap[k] == line[b + k]);
    }
    assert forall|k: int| 0 <= k < cik.len() implies !is_space(#[trigger] cik[k]) by {
        assert(cik[k] == line[c + k]);
    }
    assert forall|k: int| 0 <= k < trail.len() implies is_space(#[trigger] trail[k]) by {
        assert(trail[k] == line[d + k]);
    }
}

/// A line that holds a record is made of exactly two words, those of the
/// record.
pub proof fn lemma_line_record(line: Seq<char>)
    ensures
        line_record(line) is Some ==> exists|lead: Seq<char>, gap: Seq<char>, trail: Seq<char>|
            #[trigger] is_record_line(
                line,
                lead,
                line_record(line)->Some_0.0,
                gap,
                line_record(line)->Some_0.1,
                trail,
            ),
{
    lemma_skip_spaces(line, 0);
    let a = skip_spaces(line, 0);
    lemma_skip_word(line, a);
    let b = skip_word(line, a);
    lemma_skip_spaces(line, b);
    let c = skip_spaces(line, b);
    lemma_skip_word(line, c);
    let d = skip_word(line, c);
    lemma_skip_spaces(line, d);
    if a < b && c < d && skip_spaces(line, d) == line.len() {
        lemma_two_words_between(line, a, b, c, d);
        let ticker = line_record(line)->Some_0.0;
        let cik = line_record(line)->Some_0.1;
        assert(ticker == line.subrange(a, b));
        assert(cik == line.subrange(c, d));
        assert(is_record_line(
            line,
            line.subrange(0, a),
            ticker,
            line.subrange(b, c),
            cik,
            line.subrange(d, line.len() as int),
        ));
    }
}

/// From `i` on, white space up to `j` and none at `j` is passed up to `j`.
proof fn lemma_skip_spaces_to(s: Seq<char>, i: int, j: int)
    requires
        0 <= i <= j <= s.len(),
        forall|k: int| i <= k < j ==> is_space(#[trigger] s[k]),
        j == s.len() || !is_space(s[j]),
    ensures
        skip_spaces(s, i) == j,
    decreases j - i,
{
    if i < j {
        assert(is_space(s[i]));
        lemma_skip_spaces_to(s, i + 1, j);
    }
}

/// From `i` on, a word up to `j` and white space at `j` is passed up to `j`.
proof fn lemma_skip_word_to(s: Seq<char>, i: int, j: int)
    requires
        0 <= i <= j <= s.len(),
        forall|k: int| i <= k < j ==> !is_space(#[trigger] s[k]),
        j == s.len() || is_space(s[j]),
    ensures
        skip_word(s, i) == j,
    decreases j - i,
{
    if i < j {
        assert(!is_space(s[i]));
        lemma_skip_word_to(s, i + 1, j);
    }
}

/// A line made of exactly two words holds the record of those words.
pub proof fn lemma_record_of_two_words(
    line: Seq<char>,
    lead: Seq<char>,
    ticker: Seq<char>,
    gap: Seq<char>,
    cik: Seq<char>,
    trail: Seq<char>,
)
    requires
        is_record_line(line, lead, ticker, gap, cik, trail),
    ensures
        line_record(line) == Some((ticker, cik)),
{
    let a = lead.len() as int;
    let b = a + ticker.len();
    let c = b + gap.len();
    let d = c + cik.len();
    let n = line.len() as int;
    assert(n == d + trail.len());
    assert forall|k: int| 0 <= k < a implies is_space(#[trigger] line[k]) by {
        assert(line[k] == lead[k]);
    }
    assert forall|k: int| a <= k < b implies !is_space(#[trigger] line[k]) by {
        assert(line[k] == ticker[k - a]);
    }
    assert forall|k: int| b <= k < c implies is_space(#[trigger] line[k]) by {
        assert(line[k] == gap[k - b]);
    }
    assert forall|k: int| c <= k < d implies !is_space(#[trigger] line[k]) by {
        assert(line[k] == cik[k - c]);
    }
    assert forall|k: int| d <= k < n implies is_space(#[trigger] line[k]) by {
        assert(line[k] == trail[k - d]);
    }
    assert(!is_space(line[a]));
    assert(is_space(line[b]));
    assert(!is_space(line[c]));
    lemma_skip_spaces_to(line, 0, a);
    lemma_skip_word_to(line, a, b);
    lemma_skip_spaces_to(line, b, c);
    lemma_skip_word_to(line, c, d);
    lemma_skip_spaces_to(line, d, n);
    assert(line.subrange(a, b) =~= ticker);
    assert(line.subrange(c, d) =~= cik);
}

/// A line of white space alone, and an empty one, holds no record.
pub proof fn lemma_blank_line_holds_no_record(line: Seq<char>)
    requires
        forall|k: int| 0 <= k < line.len() ==> is_space(#[trigger] line[k]),
    ensures
        line_record(line) is None,
{
    lemma_skip_spaces(line, 0);
    let a = skip_spaces(line, 0);
    if a < line.len() {
        assert(is_space(line[a]));
    }
}

/// The CIK of a line whose ticker, in lower case, is `ticker`.
pub open spec fn line_cik(line: Seq<char>, ticker: Seq<char>) -> Option<Seq<char>> {
    match line_record(line) {
        Some((line_ticker, cik)) => if lowercase(line_ticker) == ticker {
            Some(cik)
        } else {
            None
        },
        None => None,
    }
}

/// The CIK of the first line that holds a record of `ticker`.
pub open spec fn cik_in_lines(lines: Seq<Seq<char>>, ticker: Seq<char>) -> Option<Seq<char>>
    decreases lines.len(),
{
    if lines.len() == 0 {
        None
    } else {
        match line_cik(lines[0], ticker) {
            Some(cik) => Some(cik),
            None => cik_in_lines(lines.drop_first(), ticker),
        }
    }
}

/// Whether line `i` is the first of `lines` that holds a record of
/// `ticker`, and `cik` is its CIK.
pub open spec fn first_record_at(
    lines: Seq<Seq<char>>,
    ticker: Seq<char>,
    i: int,
    cik: Seq<char>,
) -> bool {
    &&& 0 <= i < lines.len()
    &&& line_cik(lines[i], ticker) == Some(cik)
    &&& forall|j: int| 0 <= j < i ==> line_cik(#[trigger] lines[j], ticker) is None
}

/// The search returns the CIK of the first line that holds a record of the
/// ticker, and nothing only where no line holds one.
pub proof fn lemma_cik_in_lines(lines: Seq<Seq<char>>, ticker: Seq<char>)
    ensures
        match cik_in_lines(lines, ticker) {
            Some(cik) => exists|i: int| first_record_at(lines, ticker, i, cik),
            None => forall|i: int|
                0 <= i < lines.len() ==> line_cik(#[trigger] lines[i], ticker) is None,
        },
    decreases lines.len(),
{
    if lines.len() > 0 {
        let rest = lines.drop_first();
        match line_cik(lines[0], ticker) {
            Some(cik) => {
                assert(first_record_at(lines, ticker, 0, cik));
            },
            None => {
                lemma_cik_in_lines(rest, ticker);
                match cik_in_lines(rest, ticker) {
                    Some(cik) => {
                        let i = choose|i: int| first_record_at(rest, ticker, i, cik);
                        assert(lines[i + 1] == rest[i]);
                        assert forall|j: int| 0 <= j < i + 1 implies line_cik(
                            #[trigger] lines[j],
                            ticker,
                        ) is None by {
                            if j > 0 {
                                assert(lines[j] == rest[j - 1]);
                            }
                        }
                        assert(first_record_at(lines, ticker, i + 1, cik));
                    },
                    None => {
                        assert forall|i: int| 0 <= i < lines.len() implies line_cik(
                            #[trigger] lines[i],
                            ticker,
                        ) is None by {
                            if i > 0 {
                                assert(lines[i] == rest[i - 1]);
                            }
                        }
                    },
                }
            },
        }
    }
}

/// The CIK that a dictionary gives for a ticker in lower case.
pub open spec fn cik_in_text(body: Seq<char>, ticker: Seq<char>) -> Option<Seq<char>> {
    cik_in_lines(split_lines(body), ticker)
}

/// The CIK that a dictionary gives for a ticker in any case of letters.
pub open spec fn resolved_cik(body: Seq<char>, ticker: Seq<char>) -> Option<Seq<char>> {
    cik_in_text(body, lowercase(ticker))
}

/// The contents of a vector of strings.
pub open spec fn texts(items: Seq<String>) -> Seq<Seq<char>> {
    items.map_values(|s: String| s@)
}

/// The pattern of a dictionary record: letters, white space, digits.
pub open spec fn record_pattern() -> Seq<char> {
    "[a-zA-Z]+\\s+\\d+"@
}

/// What the crate `regex` finds in a text: the successive matches of the
/// pattern that do not overlap, from left to right, or nothing where the
/// pattern does not compile.
pub uninterp spec fn regex_matches(pattern: Seq<char>, text: Seq<char>) -> Option<Seq<Seq<char>>>;

/// Compiles the pattern with `Regex::new` and collects what
/// `Regex::find_iter` yields for the text, each match as the text that it
/// covers. The outcome depends on pattern and text alone; nothing more is
/// claimed of it.
#[verifier::external_body]
pub(crate) fn find_all(pattern: &str, text: &str) -> (r: Result<Vec<String>, regex::Error>)
    ensures
        match r {
            Ok(found) => regex_matches(pattern@, text@) == Some(texts(found@)),
            Err(_) => regex_matches(pattern@, text@) is None,
        },
{
    let compiled = regex::Regex::new(pattern)?;
    Ok(compiled.find_iter(text).map(|m| m.as_str().to_string()).collect())
}

/// The CIK of a line of characters, if the line is a record of `ticker`.
fn cik_of_chars(line: &Vec<char>, ticker: &str) -> (r: Option<String>)
    ensures
        match r {
            Some(cik) => line_cik(line@, ticker@) == Some(cik@),
            None => line_cik(line@, ticker@) is None,
        },
{
    let a = pass_spaces(line, 0);
    let b = pass_word(line, a);
    let c = pass_spaces(line, b);
    let d = pass_word(line, c);
    let e = pass_spaces(line, d);
    if a < b && c < d && e == line.len() {
        let line_ticker = chars_to_string(line, a, b);
        let low = to_lowercase(line_ticker.as_str());
        if same_text(low.as_str(), ticker) {
            Some(chars_to_string(line, c, d))
        } else {
            None
        }
    } else {
        None
    }
}

/// Reads one line of the dictionary: exactly two words, ticker and CIK, with
/// white space between and around them. Returns the CIK if the line's
/// ticker, in lower case, is `ticker`, which the caller gives in lower case.
/// A line of fewer or of more than two words gives nothing.
pub fn find_cik_from_line(line: &str, ticker: &str) -> (r: Option<String>)
    ensures
        match r {
            Some(cik) => line_cik(line@, ticker@) == Some(cik@),
            None => line_cik(line@, ticker@) is None,
        },
{
    let chars = str_chars(line);
    cik_of_chars(&chars, ticker)
}

/// Scans a dictionary line by line for the first record of `ticker`, which
/// the caller gives in lower case. Lines that hold no record are passed
/// over; a dictionary without a record of the ticker is an error.
pub fn find_cik_from_text(body: &str, ticker: &str) -> (r: Result<String, EDGARError>)
    ensures
        match r {
            Ok(cik) => cik_in_text(body@, ticker@) == Some(cik@),
            Err(e) => e == EDGARError::CIKNotFound && cik_in_text(body@, ticker@) is None,
        },
{
    let chars = str_chars(body);
    let lines = lines_of(&chars);
    let mut i: usize = 0;
    proof {
        assert(rows(lines@).skip(0) =~= rows(lines@));
    }
    while i < lines.len()
        invariant
            i <= lines.len(),
            rows(lines@) == split_lines(body@),
            cik_in_lines(rows(lines@).skip(i as int), ticker@) == cik_in_text(body@, ticker@),
        decreases lines.len() - i,
    {
        proof {
            let rest = rows(lines@).skip(i as int);
            assert(rest[0] == lines@[i as int]@);
            assert(rest.drop_first() =~= rows(lines@).skip(i + 1));
        }
        match cik_of_chars(&lines[i], ticker) {
            Some(cik) => {
                return Ok(cik);
            },
            None => {},
        }
        i = i + 1;
    }
    Err(EDGARError::CIKNotFound)
}

/// Goes through the records that a scan has found, in order, for the first
/// one of `ticker`, which the caller gives in lower case.
pub fn find_cik_in_matches(found: &Vec<String>, ticker: &str) -> (r: Result<String, EDGARError>)
    ensures
        match r {
            Ok(cik) => cik_in_lines(texts(found@), ticker@) == Some(cik@),
            Err(e) => e == EDGARError::CIKNotFound && cik_in_lines(texts(found@), ticker@)
                is None,
        },
{
    let mut i: usize = 0;
    proof {
        assert(texts(found@).skip(0) =~= texts(found@));
    }
    while i < found.len()
        invariant
            i <= found.len(),
            cik_in_lines(texts(found@).skip(i as int), ticker@) == cik_in_lines(
                texts(found@),
                ticker@,
            ),
        decreases found.len() - i,
    {
        proof {
            let rest = texts(found@).skip(i as int);
            assert(rest[0] == found@[i as int]@);
            assert(rest.drop_first() =~= texts(found@).skip(i + 1));
        }
        match find_cik_from_line(found[i].as_str(), ticker) {
            Some(cik) => {
                return Ok(cik);
            },
            None => {},
        }
        i = i + 1;
    }
    Err(EDGARError::CIKNotFound)
}

/// What `find_cik_from_html` returns, given what the scan of the body for
/// records has found.
pub open spec fn cik_in_matches(found: Option<Seq<Seq<char>>>, ticker: Seq<char>) -> Result<
    Seq<char>,
    EDGARError,
> {
    match found {
        None => Err(EDGARError::RegexErr),
        Some(records) => match cik_in_lines(records, ticker) {
            Some(cik) => Ok(cik),
            None => Err(EDGARError::CIKNotFound),
        },
    }
}

/// Scans a body for records wherever they stand, line breaks or not, and
/// returns the CIK of the first record of `ticker`, which the caller gives
/// in lower case.
pub fn find_cik_from_html(body: &str, ticker: &str) -> (r: Result<String, EDGARError>)
    ensures
        match r {
            Ok(cik) => cik_in_matches(regex_matches(record_pattern(), body@), ticker@) == Ok::<
                Seq<char>,
                EDGARError,
            >(cik@),
            Err(e) => cik_in_matches(regex_matches(record_pattern(), body@), ticker@) == Err::<
                Seq<char>,
                EDGARError,
            >(e),
        },
{
    match find_all("[a-zA-Z]+\\s+\\d+", body) {
        Ok(found) => find_cik_in_matches(&found, ticker),
        Err(e) => Err(EDGARError::from(e)),
    }
}

/// A query against a local copy of the dictionary.
pub fn ticker_file_location(path: &str) -> (r: CIKQuery)
    ensures
        r.place() matches CIKDictionaryLocation::FilePath(p) && p@ == path@,
{
    CIKQuery { location: CIKDictionaryLocation::FilePath(String::from_str(path)) }
}

/// A query against the dictionary at the SEC. The address is checked as a
/// URL; one that the parser refuses is an error.
pub fn default_ticker_url_location() -> (r: Result<CIKQuery, EDGARError>)
    ensures
        match r {
            Ok(query) => query.place() matches CIKDictionaryLocation::Url(u) && url_serialization(
                ticker_url(),
            ) == Some(u@),
            Err(e) => e == EDGARError::UrlParseError && url_serialization(ticker_url()) is None,
        },
{
    match parse_url("https://www.sec.gov/include/ticker.txt") {
        Ok(u) => Ok(CIKQuery { location: CIKDictionaryLocation::Url(u) }),
        Err(e) => Err(EDGARError::from(e)),
    }
}

impl CIKQuery {
    /// Where this query reads the dictionary.
    pub closed spec fn place(&self) -> CIKDictionaryLocation {
        self.location
    }

    /// Where this query reads the dictionary.
    pub fn location(&self) -> (r: &CIKDictionaryLocation)
        ensures
            *r == self.place(),
    {
        &self.location
    }

    /// A query bound to its dictionary, once and for all. `is_file` says
    /// whether the given path is an existing regular file: if so, the
    /// dictionary is read there. Without a path, or with one that is no
    /// file, it is read at the SEC.
    pub fn new(file_path: Option<&str>, is_file: bool) -> (r: Result<CIKQuery, EDGARError>)
        ensures
            file_path is Some && is_file ==> r is Ok && (r->Ok_0.place() matches CIKDictionaryLocation::FilePath(
                p,
            ) && p@ == file_path->Some_0@),
            !(file_path is Some && is_file) ==> match r {
                Ok(query) => query.place() matches CIKDictionaryLocation::Url(u)
                    && url_serialization(ticker_url()) == Some(u@),
                Err(e) => e == EDGARError::UrlParseError && url_serialization(ticker_url())
                    is None,
            },
    {
        match file_path {
            Some(given) if is_file => Ok(ticker_file_location(given)),
            _ => default_ticker_url_location(),
        }
    }

    /// Looks a ticker up in the text of the dictionary, which the caller has
    /// read at `location()`. The case of the ticker's letters does not
    /// matter. The CIK comes without leading zeros, as the dictionary has
    /// it; a ticker without a record is an error.
    pub fn get_cik(&self, body: &str, ticker: &str) -> (r: Result<String, EDGARError>)
        ensures
            match r {
                Ok(cik) => resolved_cik(body@, ticker@) == Some(cik@),
                Err(e) => e == EDGARError::CIKNotFound && resolved_cik(body@, ticker@) is None,
            },
    {
        let ticker_low = to_lowercase(ticker);
        find_cik_from_text(body, ticker_low.as_str())
    }
}

/// Two tickers with one lower-case form are one ticker to every dictionary.
pub proof fn lemma_resolution_by_lowercase(body: Seq<char>, a: Seq<char>, b: Seq<char>)
    requires
        lowercase(a) == lowercase(b),
    ensures
        resolved_cik(body, a) == resolved_cik(body, b),
{
}

/// Resolution is blind to the case of ASCII letters: a ticker of ASCII
/// characters, the same in capital letters and the same in small letters
/// give one result, whatever the dictionary holds.
pub proof fn lemma_resolution_ignores_case(body: Seq<char>, ticker: Seq<char>)
    requires
        is_ascii_text(ticker),
    ensures
        resolved_cik(body, ascii_uppercase(ticker)) == resolved_cik(body, ticker),
        resolved_cik(body, ascii_lowercase(ticker)) == resolved_cik(body, ticker),
{
    let up = ascii_uppercase(ticker);
    let low = ascii_lowercase(ticker);
    assert(is_ascii_text(up));
    assert(is_ascii_text(low));
    assert(ascii_lowercase(up) =~= ascii_lowercase(ticker));
    assert(ascii_lowercase(low) =~= ascii_lowercase(ticker));
}

} // verus!
