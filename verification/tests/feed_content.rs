use sec_edgar::edgar::{
    edgar_headers, get_feed_entries, get_feed_entry_content, EntryContent, FilingEntry,
};
use sec_edgar::edgar_query::filing_content_value::{prepare_content, Filing, FilingContentValue};
use sec_edgar::error::EDGARError;

const PAYLOAD: &str = "\n<accession-number>0000002488-23-000076</accession-number>\n<act>34</act>\n<file-number>001-07882</file-number>\n<file-number-href>https://www.sec.gov/cgi-bin/browse-edgar?action=getcompany&filenum=001-07882&owner=include&count=10</file-number-href>\n<filing-date>2023-05-03</filing-date>\n<filing-type>10-Q</filing-type>\n<film-number>23882949</film-number>\n<form-name>Quarterly report [Sections 13 or 15(d)]</form-name>\n<size>6 MB</size>\n";

const PREPARED: &str = "<ContentValue><accession-number>0000002488-23-000076</accession-number><act>34</act><file-number>001-07882</file-number><filing-date>2023-05-03</filing-date><filing-type>10-Q</filing-type><film-number>23882949</film-number><form-name>Quarterly report [Sections 13 or 15(d)]</form-name><size>6 MB</size></ContentValue>";

fn pair(name: &str, value: &str) -> (String, String) {
    (name.to_string(), value.to_string())
}

fn all_fields() -> Vec<(String, String)> {
    vec![
        pair("accession-number", "0000002488-23-000076"),
        pair("act", "34"),
        pair("file-number", "001-07882"),
        pair("filing-date", "2023-05-03"),
        pair("filing-type", "10-Q"),
        pair("film-number", "23882949"),
        pair("form-name", "Quarterly report"),
        pair("size", "6 MB"),
    ]
}

#[test]
fn content_without_its_link_is_read() {
    assert_eq!(PAYLOAD.lines().filter(|l| l.contains("href")).count(), 1);
    let prepared = prepare_content(PAYLOAD);
    assert_eq!(prepared, PREPARED);
    assert!(!prepared.contains("href"));
    let filing = FilingContentValue::from_text(PAYLOAD).unwrap();
    assert_eq!(filing.accession_number.value, "0000002488-23-000076");
    assert_eq!(filing.act.value, "34");
    assert_eq!(filing.file_number.value, "001-07882");
    assert_eq!(filing.filing_date.value, "2023-05-03");
    assert_eq!(filing.filing_type.value, "10-Q");
    assert_eq!(filing.film_number.value, "23882949");
    assert_eq!(filing.form_name.value, "Quarterly report [Sections 13 or 15(d)]");
    assert_eq!(filing.size.value, "6 MB");
}

#[test]
fn prepare_drops_every_line_with_a_link() {
    assert_eq!(prepare_content(""), "<ContentValue></ContentValue>");
    assert_eq!(prepare_content("<a>1</a>"), "<ContentValue><a>1</a></ContentValue>");
    assert_eq!(
        prepare_content("<a>1</a>\n<b href=x/>\n<c>2</c>\n<href>3</href>"),
        "<ContentValue><a>1</a><c>2</c></ContentValue>"
    );
    assert_eq!(prepare_content("href"), "<ContentValue></ContentValue>");
    assert_eq!(
        prepare_content("<a>h\nref</a>"),
        "<ContentValue><a>href</a></ContentValue>"
    );
}

#[test]
fn content_new_reads_the_value() {
    let content = EntryContent { value: Some(PAYLOAD.to_string()) };
    let filing = FilingContentValue::new(content).unwrap();
    assert_eq!(filing.filing_type.value.as_str(), "10-Q");
}

#[test]
fn content_without_text_is_refused() {
    let content = EntryContent { value: None };
    assert_eq!(
        FilingContentValue::new(content),
        Err(EDGARError::FilingContentNotFound)
    );
}

#[test]
fn content_that_is_no_xml_is_refused() {
    assert_eq!(
        FilingContentValue::from_text("<act>34</size>"),
        Err(EDGARError::SerdeXMLError)
    );
    assert_eq!(
        FilingContentValue::from_text("<act>34"),
        Err(EDGARError::SerdeXMLError)
    );
}

#[test]
fn content_that_lacks_a_field_is_refused() {
    let short = PAYLOAD.replace("<act>34</act>\n", "");
    assert_eq!(
        FilingContentValue::from_text(short.as_str()),
        Err(EDGARError::FilingContentValueNotFound)
    );
    assert_eq!(
        FilingContentValue::from_text(""),
        Err(EDGARError::FilingContentValueNotFound)
    );
}

#[test]
fn fields_make_a_filing() {
    let filing = FilingContentValue::from_fields(&all_fields()).unwrap();
    assert_eq!(filing.accession_number.value, "0000002488-23-000076");
    assert_eq!(filing.act.value, "34");
    assert_eq!(filing.file_number.value, "001-07882");
    assert_eq!(filing.filing_date.value, "2023-05-03");
    assert_eq!(filing.filing_type.value, "10-Q");
    assert_eq!(filing.film_number.value, "23882949");
    assert_eq!(filing.form_name.value, "Quarterly report");
    assert_eq!(filing.size.value, "6 MB");
}

#[test]
fn fields_may_come_in_any_order_and_with_others() {
    let mut fields = all_fields();
    fields.reverse();
    fields.insert(3, pair("items-desc", "none"));
    let filing = FilingContentValue::from_fields(&fields).unwrap();
    assert_eq!(filing, FilingContentValue::from_fields(&all_fields()).unwrap());
}

#[test]
fn the_first_field_of_a_name_counts() {
    let mut fields = all_fields();
    fields.push(pair("act", "33"));
    let filing = FilingContentValue::from_fields(&fields).unwrap();
    assert_eq!(filing.act.value, "34");
}

#[test]
fn each_field_is_needed() {
    for i in 0..8 {
        let mut fields = all_fields();
        fields.remove(i);
        assert_eq!(
            FilingContentValue::from_fields(&fields),
            Err(EDGARError::FilingContentValueNotFound)
        );
    }
    assert_eq!(
        FilingContentValue::from_fields(&Vec::new()),
        Err(EDGARError::FilingContentValueNotFound)
    );
}

#[test]
fn entry_without_content_is_refused() {
    let entry = FilingEntry { content: None };
    assert_eq!(get_feed_entry_content(&entry), Err(EDGARError::FilingContentNotFound));
    let entry = FilingEntry { content: Some(EntryContent { value: None }) };
    assert_eq!(
        get_feed_entry_content(&entry),
        Err(EDGARError::FilingContentNotFound)
    );
}

#[test]
fn entry_content_is_read() {
    let entry = FilingEntry { content: Some(EntryContent { value: Some(PAYLOAD.to_string()) }) };
    let filing = get_feed_entry_content(&entry).unwrap();
    assert_eq!(filing, FilingContentValue::from_text(PAYLOAD).unwrap());
}

const FEED: &str = "<?xml version=\"1.0\" encoding=\"ISO-8859-1\" ?>\n<feed xmlns=\"http://www.w3.org/2005/Atom\">\n<title>ADVANCED MICRO DEVICES INC  (0000002488)</title>\n<id>https://www.sec.gov/cgi-bin/browse-edgar</id>\n<updated>2023-05-04T10:00:00-04:00</updated>\n<entry>\n<category label=\"form type\" scheme=\"https://www.sec.gov/\" term=\"10-Q\" />\n<content type=\"text/xml\">\n<accession-number>0000002488-23-000076</accession-number>\n<act>34</act>\n<file-number>001-07882</file-number>\n<file-number-href>https://www.sec.gov/cgi-bin/browse-edgar?action=getcompany&amp;filenum=001-07882&amp;owner=include&amp;count=10</file-number-href>\n<filing-date>2023-05-03</filing-date>\n<filing-href>https://www.sec.gov/Archives/edgar/data/2488/000000248823000076/0000002488-23-000076-index.htm</filing-href>\n<filing-type>10-Q</filing-type>\n<film-number>23882949</film-number>\n<form-name>Quarterly report [Sections 13 or 15(d)]</form-name>\n<size>6 MB</size>\n<xbrl_href>https://www.sec.gov/cgi-bin/viewer?action=view&amp;cik=2488</xbrl_href>\n</content>\n<id>urn:tag:sec.gov,2008:accession-number=0000002488-23-000076</id>\n<title>10-Q  - Quarterly report [Sections 13 or 15(d)]</title>\n<updated>2023-05-03T16:18:08-04:00</updated>\n</entry>\n<entry>\n<content type=\"text/xml\">\n<accession-number>0000002488-23-000047</accession-number>\n<act>34</act>\n<file-number>001-07882</file-number>\n<filing-date>2023-02-27</filing-date>\n<filing-type>10-K</filing-type>\n<film-number>23670201</film-number>\n<form-name>Annual report [Section 13 and 15(d), not S-K Item 405]</form-name>\n<size>17 MB</size>\n</content>\n<id>urn:tag:sec.gov,2008:accession-number=0000002488-23-000047</id>\n<title>10-K  - Annual report</title>\n<updated>2023-02-27T16:18:08-04:00</updated>\n</entry>\n<entry>\n<id>urn:tag:sec.gov,2008:accession-number=0</id>\n<title>nothing</title>\n<updated>2023-02-27T16:18:08-04:00</updated>\n</entry>\n</feed>\n";

#[test]
fn feed_gives_its_entries_in_order() {
    let entries = get_feed_entries(FEED).unwrap();
    assert_eq!(entries.len(), 3);
    let first = get_feed_entry_content(&entries[0]).unwrap();
    assert_eq!(first.filing_type.value, "10-Q");
    assert_eq!(first.accession_number.value, "0000002488-23-000076");
    assert_eq!(first.filing_date.value, "2023-05-03");
    let second = get_feed_entry_content(&entries[1]).unwrap();
    assert_eq!(second.filing_type.value, "10-K");
    assert_eq!(second.size.value, "17 MB");
    assert_eq!(entries[2], FilingEntry { content: None });
    assert_eq!(
        get_feed_entry_content(&entries[2]),
        Err(EDGARError::FilingContentNotFound)
    );
}

#[test]
fn feed_agrees_with_the_atom_parser() {
    let feed = FEED.parse::<atom_syndication::Feed>().unwrap();
    let entries = get_feed_entries(FEED).unwrap();
    assert_eq!(entries.len(), feed.entries.len());
    for (ours, theirs) in entries.iter().zip(feed.entries.iter()) {
        let value = theirs.content.clone().and_then(|c| c.value);
        assert_eq!(ours.content.clone().and_then(|c| c.value), value);
    }
}

#[test]
fn what_is_no_feed_is_refused() {
    assert_eq!(get_feed_entries(""), Err(EDGARError::AtomSyndicationError));
    assert_eq!(
        get_feed_entries("<html><body>Not a feed</body></html>"),
        Err(EDGARError::AtomSyndicationError)
    );
}

#[test]
fn headers_need_a_user_agent() {
    assert_eq!(edgar_headers(None), Err(EDGARError::UserAgentEnvVarMissing));
    let headers = edgar_headers(Some("Sample Company admin@sample.com")).unwrap();
    assert_eq!(headers.accept_encoding, "gzip, deflate");
    assert_eq!(headers.host, "www.sec.gov");
    assert_eq!(headers.user_agent, "Sample Company admin@sample.com");
}

#[test]
fn prepare_is_split_filter_and_join() {
    let payloads = [
        "",
        "\n",
        "\n\n",
        "a",
        "a\nb",
        "a\r\nb\r\n",
        "href",
        "href\n",
        "\nhref",
        "a\nhref\nb",
        "x href y\nhre\nf\nHREF\n<b href='1'>\n",
        "h\nr\ne\nf",
        PAYLOAD,
    ];
    for payload in payloads {
        let kept: Vec<&str> = payload.split('\n').filter(|line| !line.contains("href")).collect();
        let expected = format!("<ContentValue>{}</ContentValue>", kept.join(""));
        assert_eq!(prepare_content(payload), expected);
    }
}

#[test]
fn a_filing_is_the_value_of_a_content() {
    let filing: Filing = Filing::from_fields(&all_fields()).unwrap();
    assert_eq!(filing, FilingContentValue::from_fields(&all_fields()).unwrap());
    assert_eq!(filing.filing_date.value, "2023-05-03");
}

#[test]
fn an_empty_content_element_is_no_content() {
    let feed = FEED.replace(
        "<entry>\n<id>urn:tag:sec.gov,2008:accession-number=0</id>",
        "<entry>\n<content type=\"text/xml\"></content>\n<id>urn:tag:sec.gov,2008:accession-number=0</id>",
    );
    let entries = get_feed_entries(feed.as_str()).unwrap();
    assert_eq!(entries.len(), 3);
    assert_eq!(entries[2], FilingEntry { content: Some(EntryContent { value: None }) });
    assert_eq!(
        get_feed_entry_content(&entries[2]),
        Err(EDGARError::FilingContentNotFound)
    );
}
