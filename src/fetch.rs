use vstd::prelude::*;

use crate::utils::{before_first_dot, lower_of, lowercase, stem, strip_dashes, without_dash};

verus! {

/// Why a company's filings could not be located.
#[derive(Debug, Clone, PartialEq, Eq)]
pub enum FilingError {
    /// A request could not be sent or its answer not received.
    Transport(String),
    /// An answer did not have the expected shape.
    Schema(String),
    /// The ticker is not in the company directory.
    LookupMiss(String),
    /// The submission record names no ticker.
    NoTicker,
    /// The number of historical ledgers differs from the number of files the record lists.
    MissingLedgers { expected: usize, found: usize },
    /// The ledger at this position of the merged list has sequences of unequal length.
    MisalignedLedger(usize),
}

/// A company of the directory: its numeric identifier, as decimal text, and its name.
#[derive(Debug, Clone)]
pub struct TickerMapContent {
    pub cik: String,
    pub title: String,
}

/// One historical filing-index file that a submission record refers to.
#[derive(Debug, Clone)]
pub struct Files {
    pub name: String,
    pub filing_count: String,
    pub filing_from: String,
    pub filing_to: String,
}

/// A filing ledger: parallel sequences in which index `i` describes one filing.
/// Numeric entries are held as their decimal text.
#[allow(non_snake_case)]
#[derive(Debug, Clone)]
pub struct Submission {
    pub accession_number: Vec<String>,
    pub filing_date: Vec<String>,
    pub report_date: Vec<String>,
    pub acceptance_date_time: Vec<String>,
    pub act: Vec<String>,
    pub form: Vec<String>,
    pub file_number: Vec<String>,
    pub film_number: Vec<String>,
    pub items: Vec<String>,
    pub size: Vec<String>,
    pub is_XBRL: Vec<String>,
    pub is_inline_XBRL: Vec<String>,
    pub primary_document: Vec<String>,
    pub primary_doc_description: Vec<String>,
}

/// The recent ledger of a submission record and the historical files it refers to.
#[derive(Debug, Clone)]
pub struct Filings {
    pub files: Vec<Files>,
    pub recent: Submission,
}

/// A company's submission record. JSON values that the library does not read are kept
/// as their JSON text, numbers as their decimal text.
#[derive(Debug, Clone)]
pub struct EntrySubmission {
    pub filings: Filings,
    pub addresses: String,
    pub category: String,
    pub cik: String,
    pub entity_type: String,
    pub sic: String,
    pub sic_description: String,
    pub insider_transaction_for_owner_exists: String,
    pub insider_transaction_for_issuer_exists: String,
    pub description: String,
    pub ein: String,
    pub website: String,
    pub investor_website: String,
    pub state_of_incorporation: String,
    pub state_of_incorporation_description: String,
    pub phone: String,
    pub flags: String,
    pub former_names: String,
    pub fiscal_year_end: String,
    pub exchanges: Vec<String>,
    pub tickers: Vec<String>,
}

/// A ledger as sequences of texts.
#[allow(non_snake_case)]
pub struct LedgerView {
    pub accession_number: Seq<Seq<char>>,
    pub filing_date: Seq<Seq<char>>,
    pub report_date: Seq<Seq<char>>,
    pub acceptance_date_time: Seq<Seq<char>>,
    pub act: Seq<Seq<char>>,
    pub form: Seq<Seq<char>>,
    pub file_number: Seq<Seq<char>>,
    pub film_number: Seq<Seq<char>>,
    pub items: Seq<Seq<char>>,
    pub size: Seq<Seq<char>>,
    pub is_XBRL: Seq<Seq<char>>,
    pub is_inline_XBRL: Seq<Seq<char>>,
    pub primary_document: Seq<Seq<char>>,
    pub primary_doc_description: Seq<Seq<char>>,
}

impl View for Submission {
    type V = LedgerView;

    open spec fn view(&self) -> LedgerView {
        LedgerView {
            accession_number: self.accession_number.deep_view(),
            filing_date: self.filing_date.deep_view(),
            report_date: self.report_date.deep_view(),
            acceptance_date_time: self.acceptance_date_time.deep_view(),
            act: self.act.deep_view(),
            form: self.form.deep_view(),
            file_number: self.file_number.deep_view(),
            film_number: self.film_number.deep_view(),
            items: self.items.deep_view(),
            size: self.size.deep_view(),
            is_XBRL: self.is_XBRL.deep_view(),
            is_inline_XBRL: self.is_inline_XBRL.deep_view(),
            primary_document: self.primary_document.deep_view(),
            primary_doc_description: self.primary_doc_description.deep_view(),
        }
    }
}

impl LedgerView {
    /// Every sequence of the ledger has the same length, so that an index names one filing.
    pub open spec fn aligned(&self) -> bool {
        let n = self.accession_number.len();
        &&& self.filing_date.len() == n
        &&& self.report_date.len() == n
        &&& self.acceptance_date_time.len() == n
        &&& self.act.len() == n
        &&& self.form.len() == n
        &&& self.file_number.len() == n
        &&& self.film_number.len() == n
        &&& self.items.len() == n
        &&& self.size.len() == n
        &&& self.is_XBRL.len() == n
        &&& self.is_inline_XBRL.len() == n
        &&& self.primary_document.len() == n
        &&& self.primary_doc_description.len() == n
    }
}

impl Submission {
    /// Tells whether every sequence of the ledger has the same length.
    pub fn is_aligned(&self) -> (r: bool)
        ensures
            r == self@.aligned(),
    {
        let n = self.accession_number.len();
        self.filing_date.len() == n && self.report_date.len() == n
            && self.acceptance_date_time.len() == n && self.act.len() == n && self.form.len()
            == n && self.file_number.len() == n && self.film_number.len() == n
            && self.items.len() == n && self.size.len() == n && self.is_XBRL.len() == n
            && self.is_inline_XBRL.len() == n && self.primary_document.len() == n
            && self.primary_doc_description.len() == n
    }
}

/// The views of a list of ledgers.
pub open spec fn ledger_views(ls: Seq<Submission>) -> Seq<LedgerView> {
    ls.map_values(|l: Submission| l@)
}

/// The merged ledger list: the recent ledger first, then the historical ones in their order.
pub open spec fn merged(recent: Submission, historical: Seq<Submission>) -> Seq<Submission> {
    seq![recent] + historical
}

/// Puts the recent ledger in front of the historical ledgers, keeping their order.
pub fn merge_ledgers(recent: Submission, historical: Vec<Submission>) -> (r: Vec<Submission>)
    ensures
        r@ == merged(recent, historical@),
        r@.len() == historical@.len() + 1,
{
    let mut r: Vec<Submission> = Vec::new();
    r.push(recent);
    let mut rest = historical;
    r.append(&mut rest);
    assert(r@ =~= merged(recent, historical@));
    r
}

/// The archive that holds every filing's documents.
pub open spec fn archive_base() -> Seq<char> {
    "https://www.sec.gov/Archives/edgar/data"@
}

/// The form code of a quarterly report.
pub open spec fn quarterly_form() -> Seq<char> {
    seq!['1', '0', '-', 'Q']
}

/// An inline-tag flag marks an inline filing exactly when it is the text `1`.
pub open spec fn is_inline(flag: Seq<char>) -> bool {
    flag == seq!['1']
}

/// The name of a filing's structured document. An inline filing's primary document has
/// its extension, from the first `.`, replaced by `_htm.xml`; for any other filing the
/// companion file is named after the lower-case ticker and the report date without dashes.
pub open spec fn document_name(
    lower_ticker: Seq<char>,
    report_date: Seq<char>,
    inline_flag: Seq<char>,
    primary_document: Seq<char>,
) -> Seq<char> {
    if is_inline(inline_flag) {
        stem(primary_document) + "_htm.xml"@
    } else {
        lower_ticker + seq!['-'] + strip_dashes(report_date) + ".xml"@
    }
}

/// Where a document of a filing lies in the archive.
pub open spec fn archive_url(cik: Seq<char>, accession_number: Seq<char>, file_name: Seq<char>) -> Seq<
    char,
> {
    archive_base() + seq!['/'] + cik + seq!['/'] + strip_dashes(accession_number) + seq!['/']
        + file_name
}

/// The document URL of a filing, from all that it depends on.
pub open spec fn resolved_url(
    cik: Seq<char>,
    accession_number: Seq<char>,
    lower_ticker: Seq<char>,
    report_date: Seq<char>,
    inline_flag: Seq<char>,
    primary_document: Seq<char>,
) -> Seq<char> {
    archive_url(
        cik,
        accession_number,
        document_name(lower_ticker, report_date, inline_flag, primary_document),
    )
}

/// The document URL of the filing at index `i` of ledger `l`.
pub open spec fn entry_url(lower_ticker: Seq<char>, cik: Seq<char>, l: LedgerView, i: int) -> Seq<
    char,
> {
    resolved_url(
        cik,
        l.accession_number[i],
        lower_ticker,
        l.report_date[i],
        l.is_inline_XBRL[i],
        l.primary_document[i],
    )
}

/// The URLs of the quarterly reports among the first `n` filings of `l`, in index order.
pub open spec fn ledger_urls_upto(lower_ticker: Seq<char>, cik: Seq<char>, l: LedgerView, n: int) -> Seq<
    Seq<char>,
>
    decreases n,
{
    if n <= 0 {
        seq![]
    } else {
        let before = ledger_urls_upto(lower_ticker, cik, l, n - 1);
        if l.form[n - 1] == quarterly_form() {
            before.push(entry_url(lower_ticker, cik, l, n - 1))
        } else {
            before
        }
    }
}

/// The URLs of the quarterly reports of ledger `l`, in index order.
pub open spec fn ledger_urls(lower_ticker: Seq<char>, cik: Seq<char>, l: LedgerView) -> Seq<Seq<char>> {
    ledger_urls_upto(lower_ticker, cik, l, l.form.len() as int)
}

/// The URLs of the quarterly reports of all ledgers, ledger after ledger.
pub open spec fn merged_urls(lower_ticker: Seq<char>, cik: Seq<char>, ls: Seq<LedgerView>) -> Seq<
    Seq<char>,
>
    decreases ls.len(),
{
    if ls.len() == 0 {
        seq![]
    } else {
        merged_urls(lower_ticker, cik, ls.drop_last()) + ledger_urls(lower_ticker, cik, ls.last())
    }
}

/// Every ledger of the list is aligned.
pub open spec fn all_aligned(ls: Seq<LedgerView>) -> bool {
    forall|k: int| 0 <= k < ls.len() ==> #[trigger] ls[k].aligned()
}

/// The ledger at position `k` is the first of the list that is not aligned.
pub open spec fn first_misaligned(ls: Seq<LedgerView>, k: int) -> bool {
    &&& 0 <= k < ls.len()
    &&& !ls[k].aligned()
    &&& forall|j: int| 0 <= j < k ==> #[trigger] ls[j].aligned()
}

/// The text of a list of strings.
pub open spec fn texts(v: Seq<String>) -> Seq<Seq<char>> {
    v.map_values(|s: String| s@)
}

/// Names a filing's structured document from an already lower-cased ticker.
pub fn document_file_name(
    lower_ticker: &String,
    report_date: &String,
    inline_flag: &String,
    primary_document: &String,
) -> (r: String)
    ensures
        r@ == document_name(lower_ticker@, report_date@, inline_flag@, primary_document@),
{
    let one = String::from_str("1");
    proof {
        reveal_strlit("1");
        assert(one@ =~= seq!['1']);
    }
    if *inline_flag == one {
        let mut name = before_first_dot(primary_document);
        name.append("_htm.xml");
        name
    } else {
        let mut name = lower_ticker.clone();
        name.append("-");
        proof {
            reveal_strlit("-");
            assert("-"@ =~= seq!['-']);
        }
        let date = without_dash(report_date);
        name.append(date.as_str());
        name.append(".xml");
        name
    }
}

/// Places a document of a filing in the archive.
pub fn document_url(cik: &String, accession_number: &String, file_name: &String) -> (r: String)
    ensures
        r@ == archive_url(cik@, accession_number@, file_name@),
{
    proof {
        reveal_strlit("/");
        assert("/"@ =~= seq!['/']);
    }
    let mut url = String::from_str("https://www.sec.gov/Archives/edgar/data");
    url.append("/");
    url.append(cik.as_str());
    url.append("/");
    let accession = without_dash(accession_number);
    url.append(accession.as_str());
    url.append("/");
    url.append(file_name.as_str());
    url
}

/// The document URL of a filing, from the ticker as the directory spells it.
pub fn resolve_document_url(
    cik: &String,
    accession_number: &String,
    ticker: &String,
    report_date: &String,
    inline_flag: &String,
    primary_document: &String,
) -> (r: String)
    ensures
        r@ == resolved_url(
            cik@,
            accession_number@,
            lower_of(ticker@),
            report_date@,
            inline_flag@,
            primary_document@,
        ),
{
    let lower_ticker = lowercase(ticker);
    let name = document_file_name(&lower_ticker, report_date, inline_flag, primary_document);
    document_url(cik, accession_number, &name)
}

/// Appends the URLs of the quarterly reports of one aligned ledger to `urls`.
fn push_ledger_urls(lower_ticker: &String, cik: &String, ledger: &Submission, urls: &mut Vec<String>)
    requires
        ledger@.aligned(),
    ensures
        texts(final(urls)@) == texts(old(urls)@) + ledger_urls(lower_ticker@, cik@, ledger@),
{
    let quarterly = String::from_str("10-Q");
    proof {
        reveal_strlit("10-Q");
        assert(quarterly@ =~= quarterly_form());
    }
    let ghost start = texts(urls@);
    let n = ledger.form.len();
    let mut i: usize = 0;
    while i < n
        invariant
            i <= n,
            n == ledger@.form.len(),
            ledger@.aligned(),
            quarterly@ == quarterly_form(),
            texts(urls@) == start + ledger_urls_upto(lower_ticker@, cik@, ledger@, i as int),
        decreases n - i,
    {
        proof {
            assert(ledger@.form[i as int] == ledger.form@[i as int]@);
        }
        if ledger.form[i] == quarterly {
            let ghost before = urls@;
            let name = document_file_name(
                lower_ticker,
                &ledger.report_date[i],
                &ledger.is_inline_XBRL[i],
                &ledger.primary_document[i],
            );
            let url = document_url(cik, &ledger.accession_number[i], &name);
            urls.push(url);
            proof {
                assert(ledger@.report_date[i as int] == ledger.report_date@[i as int]@);
                assert(ledger@.is_inline_XBRL[i as int] == ledger.is_inline_XBRL@[i as int]@);
                assert(ledger@.primary_document[i as int] == ledger.primary_document@[i as int]@);
                assert(ledger@.accession_number[i as int] == ledger.accession_number@[i as int]@);
                assert(texts(urls@) =~= texts(before).push(url@));
            }
        }
        i = i + 1;
    }
}

/// The URLs of the quarterly reports of all ledgers, given the lower-case ticker: ledger
/// after ledger, ascending index within each, duplicates kept. Fails on the first ledger
/// whose sequences differ in length, before reading any of its entries.
pub fn quarterly_urls_lowered(lower_ticker: &String, cik: &String, ledgers: &Vec<Submission>) -> (r:
    Result<Vec<String>, FilingError>)
    ensures
        match r {
            Ok(urls) => all_aligned(ledger_views(ledgers@)) && texts(urls@) == merged_urls(
                lower_ticker@,
                cik@,
                ledger_views(ledgers@),
            ),
            Err(FilingError::MisalignedLedger(k)) => first_misaligned(
                ledger_views(ledgers@),
                k as int,
            ),
            Err(_) => false,
        },
{
    let ghost views = ledger_views(ledgers@);
    let mut urls: Vec<String> = Vec::new();
    let mut k: usize = 0;
    while k < ledgers.len()
        invariant
            k <= ledgers@.len(),
            views == ledger_views(ledgers@),
            forall|j: int| 0 <= j < k ==> #[trigger] views[j].aligned(),
            texts(urls@) == merged_urls(lower_ticker@, cik@, views.subrange(0, k as int)),
        decreases ledgers@.len() - k,
    {
        let ledger = &ledgers[k];
        if !ledger.is_aligned() {
            return Err(FilingError::MisalignedLedger(k));
        }
        push_ledger_urls(lower_ticker, cik, ledger, &mut urls);
        proof {
            assert(views.subrange(0, k + 1).drop_last() =~= views.subrange(0, k as int));
        }
        k = k + 1;
    }
    proof {
        assert(views.subrange(0, k as int) =~= views);
    }
    Ok(urls)
}

/// The URLs of the quarterly reports of a company: its recent ledger first, then the
/// historical ledgers fetched for the files its record lists, in that order. The ticker is
/// the record's first one, lower-cased.
pub fn get_quarterly_urls(submission: EntrySubmission, historical: Vec<Submission>) -> (r: Result<
    Vec<String>,
    FilingError,
>)
    ensures
        submission.tickers@.len() == 0 ==> r == Err::<Vec<String>, FilingError>(
            FilingError::NoTicker,
        ),
        submission.tickers@.len() > 0 && historical@.len() != submission.filings.files@.len()
            ==> r == Err::<Vec<String>, FilingError>(
            FilingError::MissingLedgers {
                expected: submission.filings.files@.len() as usize,
                found: historical@.len() as usize,
            },
        ),
        submission.tickers@.len() > 0 && historical@.len() == submission.filings.files@.len()
            ==> match r {
            Ok(urls) => all_aligned(
                ledger_views(merged(submission.filings.recent, historical@)),
            ) && texts(urls@) == merged_urls(
                lower_of(submission.tickers@[0]@),
                submission.cik@,
                ledger_views(merged(submission.filings.recent, historical@)),
            ),
            Err(FilingError::MisalignedLedger(k)) => first_misaligned(
                ledger_views(merged(submission.filings.recent, historical@)),
                k as int,
            ),
            Err(_) => false,
        },
{
    if submission.tickers.len() == 0 {
        return Err(FilingError::NoTicker);
    }
    if historical.len() != submission.filings.files.len() {
        return Err(
            FilingError::MissingLedgers {
                expected: submission.filings.files.len(),
                found: historical.len(),
            },
        );
    }
    let lower_ticker = lowercase(&submission.tickers[0]);
    let ledgers = merge_ledgers(submission.filings.recent, historical);
    quarterly_urls_lowered(&lower_ticker, &submission.cik, &ledgers)
}

/// Where submission records and historical ledgers are published.
pub open spec fn submissions_base() -> Seq<char> {
    "https://data.sec.gov/submissions"@
}

/// `s` with zeros in front up to `width` characters; unchanged where it is that long already.
pub open spec fn zero_padded(s: Seq<char>, width: nat) -> Seq<char> {
    if s.len() >= width {
        s
    } else {
        Seq::new((width - s.len()) as nat, |_i: int| '0') + s
    }
}

/// The location of a company's submission record, its identifier padded to ten digits.
pub fn submission_url(cik: &String) -> (r: String)
    ensures
        r@ == submissions_base() + "/CIK"@ + zero_padded(cik@, 10) + ".json"@,
{
    let n = cik.as_str().unicode_len();
    let mut padding = String::new();
    let mut i: usize = n;
    while i < 10
        invariant
            n <= i <= 10 || (n > 10 && i == n),
            padding@ == Seq::new((i - n) as nat, |_j: int| '0'),
        decreases 10 - i,
    {
        padding.append("0");
        proof {
            reveal_strlit("0");
            assert("0"@ =~= seq!['0']);
        }
        assert(padding@ =~= Seq::new((i + 1 - n) as nat, |_j: int| '0'));
        i = i + 1;
    }
    let mut url = String::from_str("https://data.sec.gov/submissions");
    url.append("/CIK");
    url.append(padding.as_str());
    url.append(cik.as_str());
    url.append(".json");
    proof {
        if n >= 10 {
            assert(padding@ =~= Seq::<char>::empty());
        }
        assert(padding@ + cik@ =~= zero_padded(cik@, 10));
    }
    url
}

/// The location of a historical ledger, from the file name its submission record gives.
pub fn ledger_file_url(file_name: &String) -> (r: String)
    ensures
        r@ == submissions_base() + seq!['/'] + file_name@,
{
    proof {
        reveal_strlit("/");
        assert("/"@ =~= seq!['/']);
    }
    let mut url = String::from_str("https://data.sec.gov/submissions");
    url.append("/");
    url.append(file_name.as_str());
    url
}

/// With no historical references, the merged ledger list holds the recent ledger alone.
pub proof fn lemma_merge_without_history(recent: Submission, historical: Seq<Submission>)
    requires
        historical.len() == 0,
    ensures
        merged(recent, historical).len() == 1,
        ledger_views(merged(recent, historical)) == seq![recent@],
{
    assert(ledger_views(merged(recent, historical)) =~= seq![recent@]);
}

/// The inline-tag flag chooses the naming: the text `1` replaces the primary document's
/// extension, any other text names the file after the ticker and the report date.
pub proof fn lemma_inline_flag_selects_naming(
    lower_ticker: Seq<char>,
    report_date: Seq<char>,
    inline_flag: Seq<char>,
    primary_document: Seq<char>,
)
    ensures
        inline_flag == seq!['1'] ==> document_name(
            lower_ticker,
            report_date,
            inline_flag,
            primary_document,
        ) == stem(primary_document) + "_htm.xml"@,
        inline_flag != seq!['1'] ==> document_name(
            lower_ticker,
            report_date,
            inline_flag,
            primary_document,
        ) == lower_ticker + seq!['-'] + strip_dashes(report_date) + ".xml"@,
{
}

/// A filing's URL depends on its identifier, accession number, ticker, report date,
/// inline-tag flag and primary document alone: equal inputs give equal URLs.
pub proof fn lemma_url_is_pure(
    cik: Seq<char>,
    accession_number: Seq<char>,
    ticker: Seq<char>,
    report_date: Seq<char>,
    inline_flag: Seq<char>,
    primary_document: Seq<char>,
    cik2: Seq<char>,
    accession_number2: Seq<char>,
    ticker2: Seq<char>,
    report_date2: Seq<char>,
    inline_flag2: Seq<char>,
    primary_document2: Seq<char>,
)
    requires
        cik == cik2,
        accession_number == accession_number2,
        ticker == ticker2,
        report_date == report_date2,
        inline_flag == inline_flag2,
        primary_document == primary_document2,
    ensures
        resolved_url(
            cik,
            accession_number,
            lower_of(ticker),
            report_date,
            inline_flag,
            primary_document,
        ) == resolved_url(
            cik2,
            accession_number2,
            lower_of(ticker2),
            report_date2,
            inline_flag2,
            primary_document2,
        ),
{
}

proof fn lemma_no_quarterly_upto(lower_ticker: Seq<char>, cik: Seq<char>, l: LedgerView, n: int)
    requires
        n <= l.form.len(),
        forall|i: int| 0 <= i < l.form.len() ==> #[trigger] l.form[i] != quarterly_form(),
    ensures
        ledger_urls_upto(lower_ticker, cik, l, n) == Seq::<Seq<char>>::empty(),
    decreases n,
{
    if n > 0 {
        lemma_no_quarterly_upto(lower_ticker, cik, l, n - 1);
    }
}

/// A ledger without quarterly reports adds no URL to those of the ledgers before it.
pub proof fn lemma_no_quarterly_no_urls(
    lower_ticker: Seq<char>,
    cik: Seq<char>,
    before: Seq<LedgerView>,
    l: LedgerView,
)
    requires
        forall|i: int| 0 <= i < l.form.len() ==> #[trigger] l.form[i] != quarterly_form(),
    ensures
        ledger_urls(lower_ticker, cik, l) == Seq::<Seq<char>>::empty(),
        merged_urls(lower_ticker, cik, before.push(l)) == merged_urls(lower_ticker, cik, before),
{
    lemma_no_quarterly_upto(lower_ticker, cik, l, l.form.len() as int);
    assert(before.push(l).drop_last() =~= before);
    assert(merged_urls(lower_ticker, cik, before) + Seq::<Seq<char>>::empty() =~= merged_urls(
        lower_ticker,
        cik,
        before,
    ));
}

/// URLs come ledger after ledger: those of the recent ledger first, then those of the
/// historical ledgers in their listed order.
pub proof fn lemma_recent_urls_first(
    lower_ticker: Seq<char>,
    cik: Seq<char>,
    recent: LedgerView,
    historical: Seq<LedgerView>,
)
    ensures
        merged_urls(lower_ticker, cik, seq![recent] + historical) == ledger_urls(
            lower_ticker,
            cik,
            recent,
        ) + merged_urls(lower_ticker, cik, historical),
    decreases historical.len(),
{
    if historical.len() == 0 {
        assert(seq![recent] + historical =~= seq![recent]);
        assert(seq![recent].drop_last() =~= Seq::<LedgerView>::empty());
        assert(merged_urls(lower_ticker, cik, Seq::<LedgerView>::empty()) + ledger_urls(
            lower_ticker,
            cik,
            recent,
        ) =~= ledger_urls(lower_ticker, cik, recent));
        assert(ledger_urls(lower_ticker, cik, recent) + Seq::<Seq<char>>::empty() =~= ledger_urls(
            lower_ticker,
            cik,
            recent,
        ));
    } else {
        let all = seq![recent] + historical;
        lemma_recent_urls_first(lower_ticker, cik, recent, historical.drop_last());
        assert(all.drop_last() =~= seq![recent] + historical.drop_last());
        assert(all.last() == historical.last());
        assert(ledger_urls(lower_ticker, cik, recent) + merged_urls(
            lower_ticker,
            cik,
            historical.drop_last(),
        ) + ledger_urls(lower_ticker, cik, historical.last()) =~= ledger_urls(
            lower_ticker,
            cik,
            recent,
        ) + (merged_urls(lower_ticker, cik, historical.drop_last()) + ledger_urls(
            lower_ticker,
            cik,
            historical.last(),
        )));
    }
}

} // verus!
