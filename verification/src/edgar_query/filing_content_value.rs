//! The filing that the content of a feed entry describes.
use crate::edgar::EntryContent;
use crate::error::EDGARError;
use crate::text::{
    chars_to_string, contains_chars, contains_text, lines_of, rows, same_text, split_lines,
    str_chars,
};
use vstd::prelude::*;
use vstd::string::StringExecFns;

verus! {

/// The identifier that the SEC gives to each filing.
#[derive(Clone, Debug, PartialEq)]
pub struct AccessionNumber {
    /// The text of the field.
    pub value: String,
}

/// The law under which the filing is made.
#[derive(Clone, Debug, PartialEq)]
pub struct Act {
    /// The text of the field.
    pub value: String,
}

/// The number under which the SEC files a registration.
#[derive(Clone, Debug, PartialEq)]
pub struct FileNumber {
    /// The text of the field.
    pub value: String,
}

/// The link to the filings under one file number.
#[derive(Clone, Debug, PartialEq)]
pub struct FileNumberHref {
    /// The text of the field.
    pub value: String,
}

/// The date on which the filing was made.
#[derive(Clone, Debug, PartialEq)]
pub struct FilingDate {
    /// The text of the field.
    pub value: String,
}

/// The link to the filing.
#[derive(Clone, Debug, PartialEq)]
pub struct FilingHref {
    /// The text of the field.
    pub value: String,
}

/// The form code of the filing.
#[derive(Clone, Debug, PartialEq)]
pub struct FilingType {
    /// The text of the field.
    pub value: String,
}

/// The number of the filing on microfilm.
#[derive(Clone, Debug, PartialEq)]
pub struct FilmNumber {
    /// The text of the field.
    pub value: String,
}

/// The full name of the form.
#[derive(Clone, Debug, PartialEq)]
pub struct FormName {
    /// The text of the field.
    pub value: String,
}

/// The size of the filing, as a person reads it.
#[derive(Clone, Debug, PartialEq)]
pub struct Size {
    /// The text of the field.
    pub value: String,
}

/// The link to the filing's XBRL data.
#[derive(Clone, Debug, PartialEq)]
pub struct XbrlHref {
    /// The text of the field.
    pub value: String,
}

/// The fields of a filing, as the content of a feed entry gives them. The
/// links are left out: their lines are dropped before the content is read.
#[derive(Clone, Debug, PartialEq)]
pub struct FilingContentValue {
    /// See [AccessionNumber].
    pub accession_number: AccessionNumber,
    /// See [Act].
    pub act: Act,
    /// See [FileNumber].
    pub file_number: FileNumber,
    /// See [FilingDate].
    pub filing_date: FilingDate,
    /// See [FilingType].
    pub filing_type: FilingType,
    /// See [FilmNumber].
    pub film_number: FilmNumber,
    /// See [FormName].
    pub form_name: FormName,
    /// See [Size].
    pub size: Size,
}

/// A filing, by its short name.
pub type Filing = FilingContentValue;

/// The contents of a `FilingContentValue`.
pub struct ContentFields {
    pub accession_number: Seq<char>,
    pub act: Seq<char>,
    pub file_number: Seq<char>,
    pub filing_date: Seq<char>,
    pub filing_type: Seq<char>,
    pub film_number: Seq<char>,
    pub form_name: Seq<char>,
    pub size: Seq<char>,
}

impl View for FilingContentValue {
    type V = ContentFields;

    open spec fn view(&self) -> ContentFields {
        ContentFields {
            accession_number: self.accession_number.value@,
            act: self.act.value@,
            file_number: self.file_number.value@,
            filing_date: self.filing_date.value@,
            filing_type: self.filing_type.value@,
            film_number: self.film_number.value@,
            form_name: self.form_name.value@,
            size: self.size.value@,
        }
    }
}

/// The test that a line of content passes if it holds no link.
pub open spec fn lacks_link() -> spec_fn(Seq<char>) -> bool {
    |line: Seq<char>| !contains_text(line, "href"@)
}

/// The lines of a content that hold no link, one after the other with
/// nothing between them.
pub open spec fn text_without_links(value: Seq<char>) -> Seq<char> {
    split_lines(value).filter(lacks_link()).flatten()
}

/// A content made ready for reading: its lines without links, inside one
/// root element.
pub open spec fn prepared_text(value: Seq<char>) -> Seq<char> {
    "<ContentValue>"@ + text_without_links(value) + "</ContentValue>"@
}

/// Makes the content of a feed entry ready for reading. The content is a
/// run of XML elements without a root, and the lines that hold a link
/// cannot be read: every line in which `href` stands is dropped, the others
/// are joined, and the whole is put inside one root element.
pub fn prepare_content(value: &str) -> (text: String)
    ensures
        text@ == prepared_text(value@),
{
    let chars = str_chars(value);
    let lines = lines_of(&chars);
    let mark = str_chars("href");
    let mut text = String::from_str("<ContentValue>");
    let ghost kept: Seq<Seq<char>> = Seq::empty();
    let mut i: usize = 0;
    proof {
        assert(rows(lines@).take(0) =~= Seq::<Seq<char>>::empty());
        assert(Seq::<Seq<char>>::empty().filter(lacks_link()) =~= Seq::<Seq<char>>::empty()) by {
            reveal(Seq::filter);
        }
        assert("<ContentValue>"@ + Seq::<Seq<char>>::empty().flatten() =~= "<ContentValue>"@);
    }
    while i < lines.len()
        invariant
            i <= lines.len(),
            rows(lines@) == split_lines(value@),
            mark@ == "href"@,
            text@ == "<ContentValue>"@ + rows(lines@).take(i as int).filter(lacks_link()).flatten(),
        decreases lines.len() - i,
    {
        let ghost before = rows(lines@).take(i as int);
        let ghost line = lines@[i as int]@;
        proof {
            assert(rows(lines@).take(i + 1) =~= before.push(line));
            before.lemma_filter_push(line, lacks_link());
            before.filter(lacks_link()).lemma_flatten_push(line);
        }
        if !contains_chars(&lines[i], &mark) {
            let piece = chars_to_string(&lines[i], 0, lines[i].len());
            proof {
                assert(lines@[i as int]@.subrange(0, lines@[i as int]@.len() as int) =~= line);
                assert(("<ContentValue>"@ + before.filter(lacks_link()).flatten()) + line
                    =~= "<ContentValue>"@ + (before.filter(lacks_link()).flatten() + line));
            }
            text.append(piece.as_str());
        }
        i = i + 1;
    }
    proof {
        assert(rows(lines@).take(lines.len() as int) =~= rows(lines@));
    }
    text.append("</ContentValue>");
    text
}

/// A test that every item passes keeps the whole sequence.
proof fn lemma_filter_keeps_all<A>(s: Seq<A>, pred: spec_fn(A) -> bool)
    requires
        forall|i: int| 0 <= i < s.len() ==> pred(#[trigger] s[i]),
    ensures
        s.filter(pred) == s,
    decreases s.len(),
{
    if s.len() == 0 {
        reveal(Seq::filter);
        assert(s.filter(pred) =~= s);
    } else {
        let front = s.drop_last();
        lemma_filter_keeps_all(front, pred);
        front.lemma_filter_push(s.last(), pred);
        assert(front.push(s.last()) =~= s);
    }
}

/// A test that every item passes but the one at `k` keeps the sequence
/// without that item.
proof fn lemma_filter_drops_one<A>(s: Seq<A>, pred: spec_fn(A) -> bool, k: int)
    requires
        0 <= k < s.len(),
        !pred(s[k]),
        forall|i: int| 0 <= i < s.len() && i != k ==> pred(#[trigger] s[i]),
    ensures
        s.filter(pred) == s.remove(k),
    decreases s.len(),
{
    let front = s.drop_last();
    front.lemma_filter_push(s.last(), pred);
    assert(front.push(s.last()) =~= s);
    if k == s.len() - 1 {
        lemma_filter_keeps_all(front, pred);
        assert(s.remove(k) =~= front);
    } else {
        lemma_filter_drops_one(front, pred, k);
        assert(front.remove(k).push(s.last()) =~= s.remove(k));
    }
}

/// No line that is kept holds a link, and every line that is kept is a
/// line of the content.
pub proof fn lemma_kept_lines_hold_no_link(value: Seq<char>)
    ensures
        forall|i: int|
            0 <= i < split_lines(value).filter(lacks_link()).len() ==> {
                let line = #[trigger] split_lines(value).filter(lacks_link())[i];
                !contains_text(line, "href"@) && split_lines(value).contains(line)
            },
{
    let lines = split_lines(value);
    assert forall|i: int| 0 <= i < lines.filter(lacks_link()).len() implies {
        let line = #[trigger] lines.filter(lacks_link())[i];
        !contains_text(line, "href"@) && lines.contains(line)
    } by {
        let kept = lines.filter(lacks_link());
        lines.lemma_filter_pred(lacks_link(), i);
        assert(kept.contains(kept[i]));
        lines.lemma_filter_contains_rev(lacks_link(), kept[i]);
    }
}

/// Of a content in which exactly one line holds a link, every line is read
/// but that one, in the order of the content.
pub proof fn lemma_one_link_is_dropped(value: Seq<char>, k: int)
    requires
        0 <= k < split_lines(value).len(),
        contains_text(split_lines(value)[k], "href"@),
        forall|i: int|
            0 <= i < split_lines(value).len() && i != k ==> !contains_text(
                #[trigger] split_lines(value)[i],
                "href"@,
            ),
    ensures
        text_without_links(value) == split_lines(value).remove(k).flatten(),
        prepared_text(value) == "<ContentValue>"@ + split_lines(value).remove(k).flatten()
            + "</ContentValue>"@,
{
    let lines = split_lines(value);
    assert forall|i: int| 0 <= i < lines.len() && i != k implies lacks_link()(
        #[trigger] lines[i],
    ) by {}
    lemma_filter_drops_one(lines, lacks_link(), k);
}

/// A content in which no line holds a link is read whole, without its line
/// feeds.
pub proof fn lemma_content_without_links_is_kept(value: Seq<char>)
    requires
        forall|i: int|
            0 <= i < split_lines(value).len() ==> !contains_text(
                #[trigger] split_lines(value)[i],
                "href"@,
            ),
    ensures
        text_without_links(value) == split_lines(value).flatten(),
{
    let lines = split_lines(value);
    assert forall|i: int| 0 <= i < lines.len() implies lacks_link()(#[trigger] lines[i]) by {}
    lemma_filter_keeps_all(lines, lacks_link());
}

/// The contents of a vector of pairs of strings.
pub open spec fn pairs(items: Seq<(String, String)>) -> Seq<(Seq<char>, Seq<char>)> {
    items.map_values(|p: (String, String)| (p.0@, p.1@))
}

/// What the crate `serde_xml_rs` reads from a text when it is asked for an
/// ordered map from names to texts: the pairs of that map in the order of
/// the names, or nothing where the crate reports an error.
pub uninterp spec fn xml_leaf_fields(text: Seq<char>) -> Option<Seq<(Seq<char>, Seq<char>)>>;

/// Calls `serde_xml_rs::from_str` for an ordered map from `String` to
/// `String` and hands out the pairs of the map in its order. The outcome
/// depends on the text alone; nothing more is claimed of it.
#[verifier::external_body]
pub(crate) fn read_leaf_fields(text: &str) -> (r: Result<
    Vec<(String, String)>,
    serde_xml_rs::Error,
>)
    ensures
        match r {
            Ok(fields) => xml_leaf_fields(text@) == Some(pairs(fields@)),
            Err(_) => xml_leaf_fields(text@) is None,
        },
{
    let map: std::collections::BTreeMap<String, String> = serde_xml_rs::from_str(text)?;
    Ok(map.into_iter().collect())
}

/// The text of the first field of the given name.
pub open spec fn field_value(fields: Seq<(Seq<char>, Seq<char>)>, name: Seq<char>) -> Option<
    Seq<char>,
>
    decreases fields.len(),
{
    if fields.len() == 0 {
        None
    } else if fields[0].0 == name {
        Some(fields[0].1)
    } else {
        field_value(fields.drop_first(), name)
    }
}

/// The filing that a list of fields describes. Each of the eight fields of
/// a filing must be there; other fields are passed over.
pub open spec fn record_of_fields(fields: Seq<(Seq<char>, Seq<char>)>) -> Result<
    ContentFields,
    EDGARError,
> {
    if field_value(fields, "accession-number"@) is Some
        && field_value(fields, "act"@) is Some
        && field_value(fields, "file-number"@) is Some
        && field_value(fields, "filing-date"@) is Some
        && field_value(fields, "filing-type"@) is Some
        && field_value(fields, "film-number"@) is Some
        && field_value(fields, "form-name"@) is Some
        && field_value(fields, "size"@) is Some {
        Ok(
            ContentFields {
                accession_number: field_value(fields, "accession-number"@)->Some_0,
                act: field_value(fields, "act"@)->Some_0,
                file_number: field_value(fields, "file-number"@)->Some_0,
                filing_date: field_value(fields, "filing-date"@)->Some_0,
                filing_type: field_value(fields, "filing-type"@)->Some_0,
                film_number: field_value(fields, "film-number"@)->Some_0,
                form_name: field_value(fields, "form-name"@)->Some_0,
                size: field_value(fields, "size"@)->Some_0,
            },
        )
    } else {
        Err(EDGARError::FilingContentValueNotFound)
    }
}

/// The filing that a content describes, or the reason why it describes
/// none: no text; a text that cannot be read; a field that is not there.
pub open spec fn decoded_record(value: Option<Seq<char>>) -> Result<ContentFields, EDGARError> {
    match value {
        None => Err(EDGARError::FilingContentNotFound),
        Some(text) => match xml_leaf_fields(prepared_text(text)) {
            None => Err(EDGARError::SerdeXMLError),
            Some(fields) => record_of_fields(fields),
        },
    }
}

/// A result with the contents of its filing in place of the filing.
pub open spec fn outcome_view(r: Result<FilingContentValue, EDGARError>) -> Result<
    ContentFields,
    EDGARError,
> {
    match r {
        Ok(filing) => Ok(filing@),
        Err(e) => Err(e),
    }
}

/// Looks a field up by its name.
fn find_field(fields: &Vec<(String, String)>, name: &str) -> (r: Option<String>)
    ensures
        match r {
            Some(text) => field_value(pairs(fields@), name@) == Some(text@),
            None => field_value(pairs(fields@), name@) is None,
        },
{
    let mut i: usize = 0;
    proof {
        assert(pairs(fields@).skip(0) =~= pairs(fields@));
    }
    while i < fields.len()
        invariant
            i <= fields.len(),
            field_value(pairs(fields@).skip(i as int), name@) == field_value(
                pairs(fields@),
                name@,
            ),
        decreases fields.len() - i,
    {
        proof {
            let rest = pairs(fields@).skip(i as int);
            assert(rest[0] == (fields@[i as int].0@, fields@[i as int].1@));
            assert(rest.drop_first() =~= pairs(fields@).skip(i + 1));
        }
        if same_text(fields[i].0.as_str(), name) {
            return Some(fields[i].1.clone());
        }
        i = i + 1;
    }
    None
}

impl FilingContentValue {
    /// The filing that a list of named fields describes. A list that lacks
    /// one of the eight fields of a filing is an error.
    pub fn from_fields(fields: &Vec<(String, String)>) -> (r: Result<Self, EDGARError>)
        ensures
            outcome_view(r) == record_of_fields(pairs(fields@)),
    {
        let accession_number = match find_field(fields, "accession-number") {
            Some(value) => AccessionNumber { value },
            None => {
                return Err(EDGARError::FilingContentValueNotFound);
            },
        };
        let act = match find_field(fields, "act") {
            Some(value) => Act { value },
            None => {
                return Err(EDGARError::FilingContentValueNotFound);
            },
        };
        let file_number = match find_field(fields, "file-number") {
            Some(value) => FileNumber { value },
            None => {
                return Err(EDGARError::FilingContentValueNotFound);
            },
        };
        let filing_date = match find_field(fields, "filing-date") {
            Some(value) => FilingDate { value },
            None => {
                return Err(EDGARError::FilingContentValueNotFound);
            },
        };
        let filing_type = match find_field(fields, "filing-type") {
            Some(value) => FilingType { value },
            None => {
                return Err(EDGARError::FilingContentValueNotFound);
            },
        };
        let film_number = match find_field(fields, "film-number") {
            Some(value) => FilmNumber { value },
            None => {
                return Err(EDGARError::FilingContentValueNotFound);
            },
        };
        let form_name = match find_field(fields, "form-name") {
            Some(value) => FormName { value },
            None => {
                return Err(EDGARError::FilingContentValueNotFound);
            },
        };
        let size = match find_field(fields, "size") {
            Some(value) => Size { value },
            None => {
                return Err(EDGARError::FilingContentValueNotFound);
            },
        };
        Ok(
            FilingContentValue {
                accession_number,
                act,
                file_number,
                filing_date,
                filing_type,
                film_number,
                form_name,
                size,
            },
        )
    }

    /// Reads the text of a content: prepares it, reads its fields and makes
    /// the filing of them.
    pub fn from_text(value: &str) -> (r: Result<Self, EDGARError>)
        ensures
            outcome_view(r) == decoded_record(Some(value@)),
    {
        let text = prepare_content(value);
        match read_leaf_fields(text.as_str()) {
            Ok(fields) => Self::from_fields(&fields),
            Err(e) => Err(EDGARError::from(e)),
        }
    }

    /// Reads the filing that the content of a feed entry describes. A
    /// content without text is no content: `FilingContentNotFound`. A text
    /// that lacks a field is a `FilingContentValueNotFound`.
    pub fn new(content: EntryContent) -> (r: Result<Self, EDGARError>)
        ensures
            outcome_view(r) == decoded_record(content@),
    {
        match content.value {
            Some(value) => Self::from_text(value.as_str()),
            None => Err(EDGARError::FilingContentNotFound),
        }
    }
}

} // verus!
