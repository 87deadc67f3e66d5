use edgar_fetch::fetch::{
    document_file_name, get_quarterly_urls, ledger_file_url, merge_ledgers,
    quarterly_urls_lowered, resolve_document_url, submission_url, EntrySubmission, FilingError,
    Filings, Files, Submission,
};

fn s(text: &str) -> String {
    text.to_string()
}

fn ledger(entries: &[(&str, &str, &str, &str, &str)]) -> Submission {
    // (accession number, report date, form, inline flag, primary document)
    let col = |k: usize| -> Vec<String> {
        entries
            .iter()
            .map(|e| s([e.0, e.1, e.2, e.3, e.4][k]))
            .collect()
    };
    let filler = |t: &str| -> Vec<String> { entries.iter().map(|_| s(t)).collect() };
    Submission {
        accession_number: col(0),
        filing_date: filler("2021-05-12"),
        report_date: col(1),
        acceptance_date_time: filler("2021-05-12T16:05:22.000Z"),
        act: filler("34"),
        form: col(2),
        file_number: filler("001-39540"),
        film_number: filler("21916480"),
        items: filler(""),
        size: filler("12345"),
        is_XBRL: filler("1"),
        is_inline_XBRL: col(3),
        primary_document: col(4),
        primary_doc_description: filler("10-Q"),
    }
}

fn file_ref(name: &str) -> Files {
    Files {
        name: s(name),
        filing_count: s("1"),
        filing_from: s("2010-01-01"),
        filing_to: s("2015-01-01"),
    }
}

fn record(tickers: &[&str], recent: Submission, files: Vec<Files>) -> EntrySubmission {
    EntrySubmission {
        filings: Filings { files, recent },
        addresses: s("{}"),
        category: s("Large Accelerated Filer"),
        cik: s("1321655"),
        entity_type: s("operating"),
        sic: s("7372"),
        sic_description: s("Services-Prepackaged Software"),
        insider_transaction_for_owner_exists: s("1"),
        insider_transaction_for_issuer_exists: s("1"),
        description: s(""),
        ein: s("680551851"),
        website: s(""),
        investor_website: s(""),
        state_of_incorporation: s("DE"),
        state_of_incorporation_description: s("DE"),
        phone: s("720-358-3679"),
        flags: s(""),
        former_names: s("[]"),
        fiscal_year_end: s("\"1231\""),
        exchanges: vec![s("NYSE")],
        tickers: tickers.iter().map(|t| s(t)).collect(),
    }
}

const BASE: &str = "https://www.sec.gov/Archives/edgar/data";

#[test]
fn scenario_inline_filing_url() {
    let recent = ledger(&[(
        "0001321655-21-000033",
        "2021-03-31",
        "10-Q",
        "1",
        "pltr-20210331.htm",
    )]);
    let urls = get_quarterly_urls(record(&["PLTR"], recent, vec![]), vec![]).unwrap();
    assert_eq!(
        urls,
        vec![format!(
            "{}/1321655/000132165521000033/pltr-20210331_htm.xml",
            BASE
        )]
    );
    assert!(urls[0].ends_with("/1321655/000132165521000033/pltr-20210331_htm.xml"));
}

#[test]
fn scenario_companion_file_name() {
    let name = document_file_name(&s("pltr"), &s("2021-03-31"), &s("0"), &s("pltr-20210331.htm"));
    assert_eq!(name, "pltr-20210331.xml");
    let recent = ledger(&[(
        "0001321655-21-000033",
        "2021-03-31",
        "10-Q",
        "0",
        "pltr-20210331.htm",
    )]);
    let urls = get_quarterly_urls(record(&["PLTR"], recent, vec![]), vec![]).unwrap();
    assert_eq!(
        urls,
        vec![format!("{}/1321655/000132165521000033/pltr-20210331.xml", BASE)]
    );
}

#[test]
fn scenario_no_quarterly_forms() {
    let recent = ledger(&[
        ("0001321655-21-000010", "2020-12-31", "10-K", "1", "pltr-20201231.htm"),
        ("0001321655-21-000011", "", "8-K", "1", "d1.htm"),
    ]);
    let urls = get_quarterly_urls(record(&["PLTR"], recent, vec![]), vec![]).unwrap();
    assert!(urls.is_empty());
}

#[test]
fn non_quarterly_ledger_adds_nothing() {
    let recent = ledger(&[(
        "0001321655-21-000033",
        "2021-03-31",
        "10-Q",
        "1",
        "pltr-20210331.htm",
    )]);
    let old = ledger(&[("0001321655-20-000001", "2020-06-30", "S-1", "0", "s1.htm")]);
    let urls = get_quarterly_urls(
        record(&["PLTR"], recent, vec![file_ref("CIK0001321655-submissions-001.json")]),
        vec![old],
    )
    .unwrap();
    assert_eq!(urls.len(), 1);
}

#[test]
fn no_history_gives_one_ledger() {
    let merged = merge_ledgers(ledger(&[]), vec![]);
    assert_eq!(merged.len(), 1);
}

#[test]
fn merge_keeps_order() {
    let a = ledger(&[("a", "", "10-Q", "1", "a.htm")]);
    let b = ledger(&[("b", "", "10-Q", "1", "b.htm")]);
    let c = ledger(&[("c", "", "10-Q", "1", "c.htm")]);
    let merged = merge_ledgers(a, vec![b, c]);
    let firsts: Vec<String> = merged.iter().map(|l| l.accession_number[0].clone()).collect();
    assert_eq!(firsts, vec![s("a"), s("b"), s("c")]);
}

#[test]
fn misaligned_ledger_is_rejected() {
    let good = ledger(&[("0001-21-1", "2021-03-31", "10-Q", "1", "x.htm")]);
    let mut bad = ledger(&[("0001-21-2", "2021-06-30", "10-Q", "1", "y.htm")]);
    bad.report_date.pop();
    assert!(!bad.is_aligned());
    assert!(good.is_aligned());
    let r = quarterly_urls_lowered(&s("pltr"), &s("1"), &vec![good, bad]);
    assert_eq!(r, Err(FilingError::MisalignedLedger(1)));
}

#[test]
fn misaligned_recent_ledger_is_rejected() {
    let mut recent = ledger(&[("0001-21-1", "2021-03-31", "10-Q", "1", "x.htm")]);
    recent.primary_doc_description.push(s("extra"));
    let r = get_quarterly_urls(record(&["PLTR"], recent, vec![]), vec![]);
    assert_eq!(r, Err(FilingError::MisalignedLedger(0)));
}

#[test]
fn missing_ticker_is_an_error() {
    let r = get_quarterly_urls(record(&[], ledger(&[]), vec![]), vec![]);
    assert_eq!(r, Err(FilingError::NoTicker));
}

#[test]
fn missing_historical_ledger_is_an_error() {
    let files = vec![file_ref("f1.json"), file_ref("f2.json")];
    let r = get_quarterly_urls(record(&["PLTR"], ledger(&[]), files), vec![ledger(&[])]);
    assert_eq!(
        r,
        Err(FilingError::MissingLedgers {
            expected: 2,
            found: 1
        })
    );
}

#[test]
fn urls_follow_ledger_order_and_keep_duplicates() {
    let recent = ledger(&[
        ("0001-21-000002", "2021-06-30", "10-Q", "1", "q2.htm"),
        ("0001-21-000001", "2021-03-31", "10-Q", "0", "q1.htm"),
    ]);
    let old = ledger(&[
        ("0001-21-000002", "2021-06-30", "10-Q", "1", "q2.htm"),
        ("0001-19-000009", "2019-09-30", "10-Q", "0", "q3.htm"),
    ]);
    let urls = get_quarterly_urls(
        record(&["AbC"], recent, vec![file_ref("old.json")]),
        vec![old],
    )
    .unwrap();
    assert_eq!(
        urls,
        vec![
            format!("{}/1321655/000121000002/q2_htm.xml", BASE),
            format!("{}/1321655/000121000001/abc-20210331.xml", BASE),
            format!("{}/1321655/000121000002/q2_htm.xml", BASE),
            format!("{}/1321655/000119000009/abc-20190930.xml", BASE),
        ]
    );
}

#[test]
fn only_the_text_one_means_inline() {
    let inline = document_file_name(&s("t"), &s("2021-03-31"), &s("1"), &s("doc.v2.htm"));
    assert_eq!(inline, "doc_htm.xml");
    for flag in ["0", "true", "", "1.0", " 1", "01"] {
        let name = document_file_name(&s("t"), &s("2021-03-31"), &s(flag), &s("doc.v2.htm"));
        assert_eq!(name, "t-20210331.xml");
    }
}

#[test]
fn primary_document_without_extension() {
    let name = document_file_name(&s("t"), &s(""), &s("1"), &s("report"));
    assert_eq!(name, "report_htm.xml");
}

#[test]
fn url_is_a_pure_function() {
    let make = || {
        resolve_document_url(
            &s("1321655"),
            &s("0001321655-21-000033"),
            &s("PLTR"),
            &s("2021-03-31"),
            &s("0"),
            &s("pltr-20210331.htm"),
        )
    };
    let first = make();
    assert_eq!(first, make());
    assert_eq!(
        first,
        format!("{}/1321655/000132165521000033/pltr-20210331.xml", BASE)
    );
}

#[test]
fn submission_url_pads_identifier() {
    assert_eq!(
        submission_url(&s("1321655")),
        "https://data.sec.gov/submissions/CIK0001321655.json"
    );
    assert_eq!(
        submission_url(&s("12345678901")),
        "https://data.sec.gov/submissions/CIK12345678901.json"
    );
    assert_eq!(
        submission_url(&s("")),
        "https://data.sec.gov/submissions/CIK0000000000.json"
    );
}

#[test]
fn historical_ledger_url() {
    assert_eq!(
        ledger_file_url(&s("CIK0001321655-submissions-001.json")),
        "https://data.sec.gov/submissions/CIK0001321655-submissions-001.json"
    );
}
