use sec_edgar::edgar_query::cik_query::{
    default_ticker_url_location, find_cik_from_html, find_cik_from_line, find_cik_from_text,
    find_cik_in_matches, ticker_file_location, CIKDictionaryLocation, CIKQuery,
};
use sec_edgar::error::EDGARError;
use sec_edgar::text::{contains_chars, is_whitespace, lines_of, str_chars};
use std::path::Path;

fn probe(file_path: Option<&str>) -> bool {
    match file_path {
        Some(path) => Path::new(path).is_file(),
        None => false,
    }
}

#[test]
fn cik_query_invalid_file_path() {
    let file = "not/even/real";
    assert_eq!(
        CIKQuery::new(Some(file), probe(Some(file))).unwrap(),
        default_ticker_url_location().unwrap()
    )
}

#[test]
fn cik_query_no_file_path() {
    assert_eq!(
        CIKQuery::new(None, probe(None)).unwrap(),
        default_ticker_url_location().unwrap()
    )
}

#[test]
fn cik_query_edgar_invalid_file_path() {
    let file = "not/even/real";
    assert_eq!(
        CIKQuery::new(Some(file), probe(Some(file))),
        default_ticker_url_location()
    )
}

#[test]
fn edgar_no_file_path() {
    assert_eq!(CIKQuery::new(None, probe(None)), default_ticker_url_location())
}

#[test]
fn cik_query_string_for_cik() {
    let body = r"rtntf	887028
        bac	70858
        ci	1739940
        c	831001";
    let ticker = "c";
    let res = find_cik_from_html(body, ticker);
    assert_eq!(res.unwrap().as_str(), "831001")
}

#[test]
fn cik_query_test_parse_string_for_cik() {
    let body = r"rtntf	887028
        bac	70858
        ci	1739940
        c	831001";
    let ticker = "c";
    let res = find_cik_from_html(body, ticker);
    match res {
        Ok(r) => assert_eq!(r.as_str(), "831001"),
        _ => assert!(false),
    }
}

#[test]
fn new_binds_to_an_existing_file() {
    let query = CIKQuery::new(Some("./ignore/ticker.txt"), true).unwrap();
    assert_eq!(query, ticker_file_location("./ignore/ticker.txt"));
    assert_eq!(
        query.location(),
        &CIKDictionaryLocation::FilePath("./ignore/ticker.txt".to_string())
    );
}

#[test]
fn new_without_a_path_reads_at_the_sec() {
    for is_file in [true, false] {
        let query = CIKQuery::new(None, is_file).unwrap();
        assert_eq!(
            query.location(),
            &CIKDictionaryLocation::Url("https://www.sec.gov/include/ticker.txt".to_string())
        );
        assert_eq!(query, default_ticker_url_location().unwrap());
    }
}

#[test]
fn new_falls_back_to_the_sec() {
    let query = CIKQuery::new(Some("./ignore/ticker.txt"), false).unwrap();
    assert_eq!(
        query.location(),
        &CIKDictionaryLocation::Url("https://www.sec.gov/include/ticker.txt".to_string())
    );
}

#[test]
fn dictionary_lookup() {
    let query = CIKQuery::new(None, false).unwrap();
    let body = "c\t831001\nbac\t70858";
    assert_eq!(query.get_cik(body, "C"), Ok("831001".to_string()));
    assert_eq!(query.get_cik(body, "bac"), Ok("70858".to_string()));
    assert_eq!(query.get_cik(body, "zzz"), Err(EDGARError::CIKNotFound));
}

#[test]
fn lookup_ignores_case() {
    let query = CIKQuery::new(None, false).unwrap();
    let body = "aapl\t320193\nMSFT\t789019\nGoog 1652044\n";
    for ticker in ["aapl", "msft", "goog"] {
        let low = query.get_cik(body, ticker);
        assert!(low.is_ok());
        assert_eq!(query.get_cik(body, ticker.to_uppercase().as_str()), low);
        assert_eq!(query.get_cik(body, ticker.to_lowercase().as_str()), low);
    }
    assert_eq!(query.get_cik(body, "Msft"), Ok("789019".to_string()));
    assert_eq!(query.get_cik(body, "GOOG"), Ok("1652044".to_string()));
}

#[test]
fn lookup_takes_the_first_record() {
    let query = CIKQuery::new(None, false).unwrap();
    let body = "c 1\nC 2\nc 3";
    assert_eq!(query.get_cik(body, "c"), Ok("1".to_string()));
}

#[test]
fn lookup_skips_lines_without_a_record() {
    let query = CIKQuery::new(None, false).unwrap();
    let body = "\n\nc\n   \nonlyone\n\tc\t1 extra\r\n c \t831001\r\nbac\t70858\r\n";
    assert_eq!(query.get_cik(body, "c"), Ok("831001".to_string()));
    assert_eq!(query.get_cik(body, "bac"), Ok("70858".to_string()));
    assert_eq!(query.get_cik(body, "onlyone"), Err(EDGARError::CIKNotFound));
    assert_eq!(query.get_cik("", "c"), Err(EDGARError::CIKNotFound));
}

#[test]
fn a_record_does_not_span_lines() {
    assert_eq!(find_cik_from_text("c\n831001", "c"), Err(EDGARError::CIKNotFound));
    assert_eq!(find_cik_from_text("c 831001", "c"), Ok("831001".to_string()));
}

#[test]
fn line_gives_the_cik_of_its_ticker() {
    assert_eq!(find_cik_from_line("c\t831001", "c"), Some("831001".to_string()));
    assert_eq!(find_cik_from_line("  C   831001  ", "c"), Some("831001".to_string()));
    assert_eq!(find_cik_from_line("c\u{3000}831001", "c"), Some("831001".to_string()));
    assert_eq!(find_cik_from_line("c 831001\r", "c"), Some("831001".to_string()));
    assert_eq!(find_cik_from_line("c\t831001", "ci"), None);
    assert_eq!(find_cik_from_line("ci\t1739940", "c"), None);
    assert_eq!(find_cik_from_line("c", "c"), None);
    assert_eq!(find_cik_from_line("", "c"), None);
    assert_eq!(find_cik_from_line("   ", ""), None);
}

#[test]
fn line_is_compared_with_the_ticker_as_given() {
    // The ticker is expected in lower case: the line is folded, the ticker is not.
    assert_eq!(find_cik_from_line("c\t831001", "C"), None);
    assert_eq!(find_cik_from_line("C\t831001", "C"), None);
}

#[test]
fn records_are_found_without_line_breaks() {
    let body = "<pre>aapl 320193 msft 789019</pre> goog\t1652044";
    assert_eq!(find_cik_from_html(body, "aapl"), Ok("320193".to_string()));
    assert_eq!(find_cik_from_html(body, "msft"), Ok("789019".to_string()));
    assert_eq!(find_cik_from_html(body, "goog"), Ok("1652044".to_string()));
    assert_eq!(find_cik_from_html(body, "pre"), Err(EDGARError::CIKNotFound));
    assert_eq!(find_cik_from_html("", "aapl"), Err(EDGARError::CIKNotFound));
}

#[test]
fn matches_are_taken_in_order() {
    let found = vec!["bac 70858".to_string(), "c 1".to_string(), "c 2".to_string()];
    assert_eq!(find_cik_in_matches(&found, "c"), Ok("1".to_string()));
    assert_eq!(find_cik_in_matches(&found, "bac"), Ok("70858".to_string()));
    assert_eq!(find_cik_in_matches(&found, "x"), Err(EDGARError::CIKNotFound));
    assert_eq!(find_cik_in_matches(&Vec::new(), "c"), Err(EDGARError::CIKNotFound));
}

#[test]
fn white_space_is_what_unicode_says() {
    for code in 0u32..=0x11_0000 {
        if let Some(c) = char::from_u32(code) {
            assert_eq!(is_whitespace(c), c.is_whitespace());
        }
    }
}

#[test]
fn lines_are_cut_at_line_feeds() {
    let text = |s: &str| str_chars(s);
    assert_eq!(lines_of(&text("")), vec![text("")]);
    assert_eq!(lines_of(&text("a")), vec![text("a")]);
    assert_eq!(lines_of(&text("a\n")), vec![text("a"), text("")]);
    assert_eq!(lines_of(&text("\na")), vec![text(""), text("a")]);
    assert_eq!(lines_of(&text("a\r\n\nb")), vec![text("a\r"), text(""), text("b")]);
}

#[test]
fn search_finds_a_text_anywhere() {
    let text = |s: &str| str_chars(s);
    assert!(contains_chars(&text("href"), &text("href")));
    assert!(contains_chars(&text("<a href=x>"), &text("href")));
    assert!(contains_chars(&text("xxhref"), &text("href")));
    assert!(contains_chars(&text("abc"), &text("")));
    assert!(contains_chars(&text(""), &text("")));
    assert!(!contains_chars(&text("hre"), &text("href")));
    assert!(!contains_chars(&text("hreef h ref"), &text("href")));
    assert!(!contains_chars(&text(""), &text("href")));
}

#[test]
fn a_line_of_more_than_two_words_is_skipped() {
    assert_eq!(find_cik_from_line("c 1 x", "c"), None);
    assert_eq!(find_cik_from_line("c 831001 7", "c"), None);
    assert_eq!(find_cik_from_line(" c\t1\tx ", "c"), None);
    assert_eq!(find_cik_from_line("c 1 2 3", "c"), None);
    assert_eq!(find_cik_from_text("c 1 x\nc 2", "c"), Ok("2".to_string()));
    assert_eq!(find_cik_from_text("c 1 x", "c"), Err(EDGARError::CIKNotFound));
}

#[test]
fn a_line_is_read_if_it_has_exactly_two_words() {
    let lines = [
        "",
        " ",
        "c",
        "c 1",
        " c 1",
        "c 1 ",
        "c\t1",
        "C\t1\r",
        "c\u{a0}1",
        "c\u{2003}1\u{2028}2",
        "\u{85}c\u{1680}1",
        "c  \t 831001   x y z",
        "c 1 x",
        "c\u{200b}1",
        "é 12",
        "c ١٢٣",
    ];
    for line in lines {
        let words: Vec<&str> = line.split_whitespace().collect();
        if words.len() == 2 {
            let ticker = words[0].to_lowercase();
            assert_eq!(
                find_cik_from_line(line, ticker.as_str()),
                Some(words[1].to_string())
            );
            assert_eq!(find_cik_from_line(line, "no such ticker"), None);
        } else {
            for word in words {
                assert_eq!(find_cik_from_line(line, word.to_lowercase().as_str()), None);
            }
            assert_eq!(find_cik_from_line(line, "c"), None);
        }
    }
}

#[test]
fn lines_are_what_split_gives() {
    for body in ["", "\n", "a", "a\n", "\na", "a\nb\n\nc", "\n\n\n", "a\r\nb"] {
        let expected: Vec<Vec<char>> = body.split('\n').map(|l| l.chars().collect()).collect();
        assert_eq!(lines_of(&str_chars(body)), expected);
    }
}

#[test]
fn the_characters_of_a_text_come_in_order() {
    assert_eq!(str_chars(""), Vec::<char>::new());
    assert_eq!(str_chars("aé\u{1F600}b"), vec!['a', 'é', '\u{1F600}', 'b']);
}
