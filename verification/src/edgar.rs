//! What is sent to EDGAR with every request, and the feed that comes back.
use crate::edgar_query::filing_content_value::{decoded_record, outcome_view, ContentFields, FilingContentValue};
use crate::error::EDGARError;
use vstd::prelude::*;
use vstd::string::StringExecFns;

verus! {

/// The content of a feed entry.
#[derive(Clone, Debug, PartialEq)]
pub struct EntryContent {
    /// The text inside the content element, if it has any.
    pub value: Option<String>,
}

/// One entry of EDGAR's feed: one filing. Of the entry only the content is
/// kept.
#[derive(Clone, Debug, PartialEq)]
pub struct FilingEntry {
    /// The content element of the entry, if it has one.
    pub content: Option<EntryContent>,
}

impl View for EntryContent {
    type V = Option<Seq<char>>;

    open spec fn view(&self) -> Option<Seq<char>> {
        match self.value {
            Some(text) => Some(text@),
            None => None,
        }
    }
}

impl View for FilingEntry {
    type V = Option<Option<Seq<char>>>;

    open spec fn view(&self) -> Option<Option<Seq<char>>> {
        match self.content {
            Some(content) => Some(content@),
            None => None,
        }
    }
}

/// The contents of a vector of entries.
pub open spec fn entries_view(entries: Seq<FilingEntry>) -> Seq<Option<Option<Seq<char>>>> {
    entries.map_values(|e: FilingEntry| e@)
}

/// What the crate `atom_syndication` reads from a text as an Atom feed: of
/// each entry, in the order of the feed, the text of its content; or
/// nothing where the text is no feed.
pub uninterp spec fn atom_entries(body: Seq<char>) -> Option<Seq<Option<Option<Seq<char>>>>>;

/// Calls `Feed::from_str` of the crate `atom_syndication` and hands out the
/// entries of the feed in their order, each with the text of its content
/// and nothing else. The outcome depends on the text alone; nothing more is
/// claimed of it.
#[verifier::external_body]
pub(crate) fn parse_feed(body: &str) -> (r: Result<Vec<FilingEntry>, atom_syndication::Error>)
    ensures
        match r {
            Ok(entries) => atom_entries(body@) == Some(entries_view(entries@)),
            Err(_) => atom_entries(body@) is None,
        },
{
    let feed = body.parse::<atom_syndication::Feed>()?;
    Ok(
        feed.entries.into_iter().map(
            |e| FilingEntry { content: e.content.map(|c| EntryContent { value: c.value }) },
        ).collect(),
    )
}

/// The entries of the feed that EDGAR has answered with, in the order in
/// which the feed has them: none is left out and none is moved. A body that
/// is no Atom feed is an error.
pub fn get_feed_entries(body: &str) -> (r: Result<Vec<FilingEntry>, EDGARError>)
    ensures
        match r {
            Ok(entries) => atom_entries(body@) == Some(entries_view(entries@)),
            Err(e) => e == EDGARError::AtomSyndicationError && atom_entries(body@) is None,
        },
{
    match parse_feed(body) {
        Ok(entries) => Ok(entries),
        Err(e) => Err(EDGARError::from(e)),
    }
}

/// The filing that an entry describes, or the reason why it describes none.
pub open spec fn entry_record(entry: Option<Option<Seq<char>>>) -> Result<
    ContentFields,
    EDGARError,
> {
    match entry {
        None => Err(EDGARError::FilingContentNotFound),
        Some(value) => decoded_record(value),
    }
}

/// Reads the filing that a feed entry describes. An entry without content,
/// or with a content without text, is an error; the lines of the content
/// that hold links are not read.
pub fn get_feed_entry_content(entry: &FilingEntry) -> (r: Result<FilingContentValue, EDGARError>)
    ensures
        outcome_view(r) == entry_record(entry@),
{
    match &entry.content {
        None => Err(EDGARError::FilingContentNotFound),
        Some(content) => match &content.value {
            Some(value) => FilingContentValue::from_text(value.as_str()),
            None => Err(EDGARError::FilingContentNotFound),
        },
    }
}

/// The headers that go with every request to EDGAR.
#[derive(Clone, Debug, PartialEq)]
pub struct EdgarHeaders {
    /// The value of `Accept-Encoding`.
    pub accept_encoding: String,
    /// The value of `Host`.
    pub host: String,
    /// The value of `User-Agent`: who is asking.
    pub user_agent: String,
}

/// The headers of a request to EDGAR. The SEC asks every client to say who
/// it is: without a user agent there are no headers, and no request is to
/// be made.
pub fn edgar_headers(user_agent: Option<&str>) -> (r: Result<EdgarHeaders, EDGARError>)
    ensures
        match user_agent {
            None => r == Err::<EdgarHeaders, EDGARError>(EDGARError::UserAgentEnvVarMissing),
            Some(agent) => r is Ok && r->Ok_0.accept_encoding@ == "gzip, deflate"@
                && r->Ok_0.host@ == "www.sec.gov"@ && r->Ok_0.user_agent@ == agent@,
        },
{
    match user_agent {
        None => Err(EDGARError::UserAgentEnvVarMissing),
        Some(agent) => Ok(
            EdgarHeaders {
                accept_encoding: String::from_str("gzip, deflate"),
                host: String::from_str("www.sec.gov"),
                user_agent: String::from_str(agent),
            },
        ),
    }
}

} // verus!
