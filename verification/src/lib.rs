//! Queries the license plate numbers that Taiwan's motor vehicle stations offer for
//! picking, with their prices, from the site of the Directorate General of Highways.
//!
//! The library holds what decides a query: the options and the codes the query form
//! sends for them, the addresses and form fields of each request, how the site's
//! answer is read (the rejected captcha, the link to the next page, the plates and
//! their prices), and how a pool of queries is planned and its results gathered.
//! Sending the requests and reading the captcha image are left to the caller.

pub mod directory;
pub mod html;
pub mod ocr;
pub mod options;
pub mod pool;
pub mod text;

use std::sync::Arc;

use reqwest::Client as HttpClient;
use reqwest::Error as HttpError;

use crate::html::{cell_texts, first_attr, first_text, html_cell_texts, html_first_attr, html_first_text};
use crate::ocr::OcrError;
use crate::options::{PlateType, PlateVer, Region, Station, WindowNo};
use crate::text::{
    decimal, grouped_digits, lemma_grouped_digits_ungroup, lemma_parse_i32_reads_decimal,
    lemma_without_absent_char, lemma_without_char_concat, parse_i32, remove_char, seq_contains,
    spec_is_whitespace, spec_parse_i32, trim, trim_end_seq, trim_seq, trim_start_seq, without_char,
    IntErrorKind,
};
use vstd::prelude::*;

verus! {

/// The site the queries go to unless the builder is given another.
pub const DEFAULT_BASE_URL: &'static str = "https://www.mvdis.gov.tw";

/// The user agent the default HTTP client presents.
pub const DEFAULT_USER_AGENT: &'static str = "Mozilla/5.0 (Macintosh; Intel Mac OS X 10_15_7) AppleWebKit/537.36 (KHTML, like Gecko) Chrome/131.0.0.0 Safari/537.36";

/// `reqwest::Client`, held by a `Client` and handed to the caller, who sends the
/// requests with it. Opaque here.
#[verifier::external_type_specification]
#[verifier::external_body]
pub struct ExReqwestClient(HttpClient);

/// `reqwest::Error`, the error of a failed request, carried in `Error::ReqwestError`.
/// Opaque here.
#[verifier::external_type_specification]
#[verifier::external_body]
pub struct ExReqwestError(HttpError);

/// The path of the page that carries the query form and answers it.
pub open spec fn query_page_path() -> Seq<char> {
    "/m3-emv-plate/webpickno/queryPickNo"@
}

/// The path of the captcha image.
pub open spec fn captcha_image_path() -> Seq<char> {
    "/m3-emv-plate/captchaImg.jpg"@
}

/// Builds a `Client` from an HTTP client and the site's address.
pub struct ClientBuilder {
    client: HttpClient,
    base_url: String,
}

impl ClientBuilder {
    /// The HTTP client the built `Client` will use.
    pub closed spec fn spec_client(&self) -> HttpClient {
        self.client
    }

    /// The site address the built `Client` will use.
    pub closed spec fn spec_base_url(&self) -> Seq<char> {
        self.base_url@
    }

    /// A builder for the given HTTP client and the default site address.
    pub fn new_with_client(client: HttpClient) -> (b: Self)
        ensures
            b.spec_client() == client,
            b.spec_base_url() == DEFAULT_BASE_URL@,
    {
        Self { client, base_url: DEFAULT_BASE_URL.to_owned() }
    }

    /// The same builder with another site address.
    pub fn base_url(self, base_url: &str) -> (b: Self)
        ensures
            b.spec_client() == self.spec_client(),
            b.spec_base_url() == base_url@,
    {
        let mut b = self;
        b.base_url = base_url.to_owned();
        b
    }

    /// The client with this builder's HTTP client and site address.
    pub fn build(self) -> (c: Client)
        ensures
            c.spec_http_client() == self.spec_client(),
            c.spec_base_url() == self.spec_base_url(),
    {
        Client { http_client: self.client, base_url: self.base_url }
    }
}

/// The options of one query.
#[derive(Debug, Clone, Copy)]
pub struct QueryOptions {
    pub plate_ver: PlateVer,
    pub plate_type: PlateType,
    pub region: Region,
    pub station: Station,
    pub window_no: WindowNo,
}

/// A client of the query site: an HTTP client and the site's address.
#[derive(Debug)]
pub struct Client {
    http_client: HttpClient,
    base_url: String,
}

impl Client {
    /// The HTTP client the requests go through.
    pub closed spec fn spec_http_client(&self) -> HttpClient {
        self.http_client
    }

    /// The site's address.
    pub closed spec fn spec_base_url(&self) -> Seq<char> {
        self.base_url@
    }

    /// The HTTP client the requests go through.
    pub fn http_client(&self) -> (c: &HttpClient)
        ensures
            *c == self.spec_http_client(),
    {
        &self.http_client
    }

    /// The site's address.
    pub fn base_url(&self) -> (s: &str)
        ensures
            s@ == self.spec_base_url(),
    {
        self.base_url.as_str()
    }

    /// The address of `path` on the site: the site's address followed by `path`.
    pub fn url_for(&self, path: &str) -> (u: String)
        ensures
            u@ == self.spec_base_url() + path@,
    {
        self.base_url.clone().concat(path)
    }

    /// The address of the page that carries the query form (fetched for its CSRF token)
    /// and to which the form is posted.
    pub fn query_page_url(&self) -> (u: String)
        ensures
            u@ == self.spec_base_url() + query_page_path(),
    {
        self.url_for("/m3-emv-plate/webpickno/queryPickNo")
    }

    /// The address of the captcha image.
    pub fn captcha_image_url(&self) -> (u: String)
        ensures
            u@ == self.spec_base_url() + captcha_image_path(),
    {
        self.url_for("/m3-emv-plate/captchaImg.jpg")
    }
}

/// The selector of the query form's CSRF token field.
pub open spec fn csrf_selector() -> Seq<char> {
    "input[name='CSRFToken']"@
}

/// The CSRF token of the query form on the page `page`: the `value` of the first
/// `CSRFToken` input.
pub open spec fn spec_csrf_token(page: Seq<char>) -> Option<Seq<char>> {
    html_first_attr(page, csrf_selector(), "value"@)
}

/// Reads the CSRF token of the query form from the form page; `None` when the page
/// has no token.
pub fn csrf_token_from_page(page: &str) -> (r: Option<String>)
    ensures
        r.deep_view() == spec_csrf_token(page@),
{
    first_attr(page, "input[name='CSRFToken']", "value")
}

/// The fields of the query form, in the order they are sent.
pub open spec fn spec_query_payload(
    csrf_token: Seq<char>,
    captcha_text: Seq<char>,
    options: QueryOptions,
    query_no: Option<Seq<char>>,
) -> Seq<(Seq<char>, Seq<char>)> {
    seq![
        ("method"@, "qryPickNo"@),
        ("selDeptCode"@, options.region.code()),
        ("selStationCode"@, options.station.code()),
        ("selWindowNo"@, options.window_no.code()),
        ("selPlateType"@, options.plate_type.code()),
        ("plateVer"@, options.plate_ver.code()),
        ("validateStr"@, captcha_text),
        ("queryType"@, "0"@),
        ("queryNo"@, match query_no {
            Some(q) => q,
            None => "*"@,
        }),
        ("CSRFToken"@, csrf_token),
    ]
}

/// The fields of the query form for the given token, captcha answer and options;
/// without a number pattern the query asks for every number (`*`).
pub fn query_payload(
    csrf_token: &str,
    captcha_text: &str,
    options: &QueryOptions,
    query_no: Option<&str>,
) -> (fields: Vec<(String, String)>)
    ensures
        fields.deep_view() == spec_query_payload(
            csrf_token@,
            captcha_text@,
            *options,
            query_no.deep_view(),
        ),
{
    let query_no_value = match query_no {
        Some(q) => q,
        None => "*",
    };
    let fields = vec![
        ("method".to_owned(), "qryPickNo".to_owned()),
        ("selDeptCode".to_owned(), options.region.as_str().to_owned()),
        ("selStationCode".to_owned(), options.station.as_str().to_owned()),
        ("selWindowNo".to_owned(), options.window_no.as_str().to_owned()),
        ("selPlateType".to_owned(), options.plate_type.as_str().to_owned()),
        ("plateVer".to_owned(), options.plate_ver.as_str().to_owned()),
        ("validateStr".to_owned(), captcha_text.to_owned()),
        ("queryType".to_owned(), "0".to_owned()),
        ("queryNo".to_owned(), query_no_value.to_owned()),
        ("CSRFToken".to_owned(), csrf_token.to_owned()),
    ];
    assert(fields.deep_view() =~= spec_query_payload(
        csrf_token@,
        captcha_text@,
        *options,
        query_no.deep_view(),
    ));
    fields
}

/// The value of the first field named `name` among the form fields `fields`.
pub open spec fn field_value(fields: Seq<(Seq<char>, Seq<char>)>, name: Seq<char>) -> Option<
    Seq<char>,
>
    decreases fields.len(),
{
    if fields.len() == 0 {
        None
    } else if fields[0].0 == name {
        Some(fields[0].1)
    } else {
        field_value(fields.drop_first(), name)
    }
}

/// Law: the query form names each field once, and sends under `selDeptCode`,
/// `selStationCode`, `selWindowNo`, `selPlateType` and `plateVer` the form codes of the
/// chosen regional office, station, window, plate kind and plate style, under
/// `validateStr` the captcha answer, under `CSRFToken` the token, under `queryNo` the
/// number pattern or `*`, under `method` `qryPickNo` and under `queryType` `0`.
pub proof fn lemma_query_payload_fields(
    csrf_token: Seq<char>,
    captcha_text: Seq<char>,
    options: QueryOptions,
    query_no: Option<Seq<char>>,
)
    ensures
        ({
            let fields = spec_query_payload(csrf_token, captcha_text, options, query_no);
            &&& forall|a: int, b: int|
                0 <= a < b < fields.len() ==> (#[trigger] fields[a]).0 != (#[trigger] fields[b]).0
            &&& field_value(fields, "method"@) == Some("qryPickNo"@)
            &&& field_value(fields, "selDeptCode"@) == Some(options.region.code())
            &&& field_value(fields, "selStationCode"@) == Some(options.station.code())
            &&& field_value(fields, "selWindowNo"@) == Some(options.window_no.code())
            &&& field_value(fields, "selPlateType"@) == Some(options.plate_type.code())
            &&& field_value(fields, "plateVer"@) == Some(options.plate_ver.code())
            &&& field_value(fields, "validateStr"@) == Some(captcha_text)
            &&& field_value(fields, "queryType"@) == Some("0"@)
            &&& field_value(fields, "queryNo"@) == Some(
                match query_no {
                    Some(q) => q,
                    None => "*"@,
                },
            )
            &&& field_value(fields, "CSRFToken"@) == Some(csrf_token)
        }),
{
    reveal_strlit("method");
    reveal_strlit("selDeptCode");
    reveal_strlit("selStationCode");
    reveal_strlit("selWindowNo");
    reveal_strlit("selPlateType");
    reveal_strlit("plateVer");
    reveal_strlit("validateStr");
    reveal_strlit("queryType");
    reveal_strlit("queryNo");
    reveal_strlit("CSRFToken");
    reveal_with_fuel(field_value, 11);
    let fields = spec_query_payload(csrf_token, captcha_text, options, query_no);
    assert forall|a: int, b: int|
        0 <= a < b < fields.len() implies (#[trigger] fields[a]).0 != (#[trigger] fields[b]).0 by {
        assert(fields[a].0[0] != fields[b].0[0] || fields[a].0.len() != fields[b].0.len()
            || fields[a].0[3] != fields[b].0[3]);
    }
}

/// The text the site puts in the page header when the captcha answer was wrong
/// (驗證數字輸入錯誤: "the verification digits were entered wrongly").
pub open spec fn captcha_rejection_text() -> Seq<char> {
    "驗證數字輸入錯誤"@
}

/// The selector of the page header message.
pub open spec fn header_selector() -> Seq<char> {
    "td#headerMessage"@
}

/// Whether the answer page `page` says that the captcha answer was wrong: its header
/// message holds the rejection text.
pub open spec fn spec_captcha_rejected(page: Seq<char>) -> bool {
    match html_first_text(page, header_selector()) {
        Some(message) => seq_contains(message, captcha_rejection_text()),
        None => false,
    }
}

/// Whether the header message `header` of an answer page (none when the page has none)
/// says that the captcha answer was wrong.
pub fn header_rejects_captcha(header: &Option<String>) -> (b: bool)
    ensures
        b == match header.deep_view() {
            Some(message) => seq_contains(message, captcha_rejection_text()),
            None => false,
        },
{
    match header {
        Some(message) => crate::text::contains(message.as_str(), "驗證數字輸入錯誤"),
        None => false,
    }
}

/// Builds one query: the client, the options and an optional number pattern.
pub struct QueryBuilder {
    client: Arc<Client>,
    options: QueryOptions,
    query_no: Option<String>,
}

impl QueryBuilder {
    /// The client the query goes through.
    pub closed spec fn spec_client(&self) -> Arc<Client> {
        self.client
    }

    /// The options of the query.
    pub closed spec fn spec_options(&self) -> QueryOptions {
        self.options
    }

    /// The number pattern of the query, if any.
    pub closed spec fn spec_query_no(&self) -> Option<Seq<char>> {
        self.query_no.deep_view()
    }

    /// A query with the given client and options and no number pattern.
    pub fn new(client: Arc<Client>, options: QueryOptions) -> (b: Self)
        ensures
            b.spec_client() == client,
            b.spec_options() == options,
            b.spec_query_no() == None::<Seq<char>>,
    {
        Self { client, options, query_no: None }
    }

    /// The same query, asking only for the numbers that match `query_no`.
    pub fn query_no(self, query_no: &str) -> (b: Self)
        ensures
            b.spec_client() == self.spec_client(),
            b.spec_options() == self.spec_options(),
            b.spec_query_no() == Some(query_no@),
    {
        let mut b = self;
        b.query_no = Some(query_no.to_owned());
        b
    }

    /// The client the query goes through.
    pub fn client(&self) -> (c: &Arc<Client>)
        ensures
            *c == self.spec_client(),
    {
        &self.client
    }

    /// The options of the query.
    pub fn options(&self) -> (o: QueryOptions)
        ensures
            o == self.spec_options(),
    {
        self.options
    }

    /// The number pattern of the query, if any.
    pub fn query_no_pattern(&self) -> (q: Option<&str>)
        ensures
            q.deep_view() == self.spec_query_no(),
    {
        match &self.query_no {
            Some(q) => Some(q.as_str()),
            None => None,
        }
    }

    /// Reads the site's answer `page` to the posted query form: a captcha error when
    /// the page says the captcha answer was wrong, else the query holding the page.
    pub fn into_query(self, page: String) -> (r: Result<Query, Error>)
        ensures
            spec_captcha_rejected(page@) ==> r == Err::<Query, Error>(Error::CaptchaError),
            !spec_captcha_rejected(page@) ==> (r matches Ok(q) && q.spec_client()
                == self.spec_client() && q.spec_document() == Some(page@)),
    {
        let header = first_text(page.as_str(), "td#headerMessage");
        if header_rejects_captcha(&header) {
            return Err(Error::CaptchaError);
        }
        Ok(Query { client: self.client, document: Some(page) })
    }
}

/// The selector of the link to the next page of results.
pub open spec fn next_page_selector() -> Seq<char> {
    "a#next"@
}

/// The selector of the cells of the result table, one for each plate.
pub open spec fn cell_selector() -> Seq<char> {
    "table#countList tbody td div.number_cell"@
}

/// The selector of the plate number inside a cell.
pub open spec fn plate_no_selector() -> Seq<char> {
    "a.number"@
}

/// The selector of the price inside a cell.
pub open spec fn price_selector() -> Seq<char> {
    "div.price"@
}

/// The price that the text `text` of a price cell states, read as the site writes it:
/// surrounding whitespace trimmed, the currency sign `元` and the thousands
/// separators `,` taken out, then a decimal `i32`.
pub open spec fn spec_price(text: Seq<char>) -> Result<i32, IntErrorKind> {
    spec_parse_i32(without_char(without_char(trim_seq(text), '元'), ','))
}

/// How the site writes a price of `n`: its digits in groups of three, then `元`.
pub open spec fn site_price_text(n: nat) -> Seq<char> {
    grouped_digits(n) + seq!['元']
}

/// Law: a price written the way the site writes it reads as its value.
pub proof fn lemma_site_price_reads_back(n: i32)
    requires
        n >= 0,
    ensures
        spec_price(site_price_text(n as nat)) == Ok::<i32, IntErrorKind>(n),
{
    let m = n as nat;
    let g = grouped_digits(m);
    let t = site_price_text(m);
    let sign = seq!['元'];
    lemma_grouped_digits_ungroup(m);
    assert(t[0] == g[0]);
    assert(!spec_is_whitespace(t[0]));
    assert(t.last() == '元');
    assert(trim_start_seq(t) == t);
    assert(trim_end_seq(t) == t);
    lemma_without_char_concat(g, sign, '元');
    assert forall|k: int| 0 <= k < g.len() implies #[trigger] g[k] != '元' by {
        assert(crate::text::is_digit(g[k]) || g[k] == ',');
    }
    lemma_without_absent_char(g, '元');
    assert(without_char(sign, '元') =~= Seq::<char>::empty()) by {
        assert(sign.len() == 1 && sign.last() == '元');
        assert(sign.drop_last() =~= Seq::<char>::empty());
        assert(without_char(sign.drop_last(), '元') == Seq::<char>::empty());
    }
    assert(without_char(t, '元') =~= g);
    assert(decimal(n as int) == crate::text::decimal_digits(m));
    lemma_parse_i32_reads_decimal(n);
}

/// Reads the price from the text of a price cell.
pub fn parse_price(text: &str) -> (r: Result<i32, IntErrorKind>)
    ensures
        r == spec_price(text@),
{
    let trimmed = trim(text);
    let chars = crate::text::chars_of(trimmed.as_str());
    let no_sign = remove_char(&chars, '元');
    let digits = remove_char(&no_sign, ',');
    parse_i32(&digits)
}

/// The plates that the cells `cells` (plate number text, price text) describe, in
/// order: a cell with both texts gives its trimmed number and its price, a cell that
/// lacks either is passed over, and the first price that does not read stops it all.
pub open spec fn spec_plates(cells: Seq<(Option<Seq<char>>, Option<Seq<char>>)>) -> Result<
    Seq<(Seq<char>, i32)>,
    IntErrorKind,
>
    decreases cells.len(),
{
    if cells.len() == 0 {
        Ok(Seq::empty())
    } else {
        match spec_plates(cells.drop_last()) {
            Err(e) => Err(e),
            Ok(plates) => match cells.last() {
                (Some(plate_no), Some(price)) => match spec_price(price) {
                    Ok(p) => Ok(plates.push((trim_seq(plate_no), p))),
                    Err(e) => Err(e),
                },
                _ => Ok(plates),
            },
        }
    }
}

/// The cells of the result table of the page `page`.
pub open spec fn spec_cells(page: Seq<char>) -> Seq<(Option<Seq<char>>, Option<Seq<char>>)> {
    html_cell_texts(page, cell_selector(), plate_no_selector(), price_selector())
}

/// A query that was answered: the client and the page of results last fetched.
pub struct Query {
    client: Arc<Client>,
    document: Option<String>,
}

impl Query {
    /// The client the query goes through.
    pub closed spec fn spec_client(&self) -> Arc<Client> {
        self.client
    }

    /// The page of results last fetched, if any.
    pub closed spec fn spec_document(&self) -> Option<Seq<char>> {
        self.document.deep_view()
    }

    /// The client the query goes through.
    pub fn client(&self) -> (c: &Arc<Client>)
        ensures
            *c == self.spec_client(),
    {
        &self.client
    }

    /// The address of the next page of results: the site's address followed by the
    /// `href` of the `next` link; `None` on the last page.
    pub fn next_page_url(&self) -> (r: Result<Option<String>, Error>)
        ensures
            match self.spec_document() {
                None => r == Err::<Option<String>, Error>(Error::NoDocumentFound),
                Some(page) => match html_first_attr(page, next_page_selector(), "href"@) {
                    Some(href) => r matches Ok(Some(u)) && u@ == self.spec_client().spec_base_url()
                        + href,
                    None => r == Ok::<Option<String>, Error>(None),
                },
            },
    {
        match &self.document {
            None => Err(Error::NoDocumentFound),
            Some(page) => match first_attr(page.as_str(), "a#next", "href") {
                Some(href) => Ok(Some(self.client.url_for(href.as_str()))),
                None => Ok(None),
            },
        }
    }

    /// Makes `page` the page of results the query holds.
    pub fn set_document(&mut self, page: String)
        ensures
            final(self).spec_client() == old(self).spec_client(),
            final(self).spec_document() == Some(page@),
    {
        self.document = Some(page);
    }

    /// The plates on the page of results: `None` when the query holds no page, else
    /// the plates its result table lists, or the parse error of the first price that
    /// does not read.
    pub fn results(&self) -> (r: Result<Option<Vec<PlateInfo>>, Error>)
        ensures
            match self.spec_document() {
                None => r matches Ok(None),
                Some(page) => match spec_plates(spec_cells(page)) {
                    Ok(plates) => r matches Ok(Some(v)) && v.deep_view() == plates,
                    Err(e) => r matches Err(Error::ParseError(m)) && m@ == e.spec_description(),
                },
            },
    {
        match &self.document {
            None => Ok(None),
            Some(page) => {
                let cells = cell_texts(
                    page.as_str(),
                    "table#countList tbody td div.number_cell",
                    "a.number",
                    "div.price",
                );
                match plates_from_cells(&cells) {
                    Ok(plates) => Ok(Some(plates)),
                    Err(e) => Err(e),
                }
            },
        }
    }
}

/// The plates that the cells of a result table describe, each cell given as the text
/// of its plate number and the text of its price: a cell with both gives its trimmed
/// number and its price, a cell that lacks either is passed over, and the first price
/// that does not read gives a parse error that says why.
pub fn plates_from_cells(cells: &Vec<(Option<String>, Option<String>)>) -> (r: Result<
    Vec<PlateInfo>,
    Error,
>)
    ensures
        match spec_plates(cells.deep_view()) {
            Ok(plates) => r matches Ok(v) && v.deep_view() == plates,
            Err(e) => r matches Err(Error::ParseError(m)) && m@ == e.spec_description(),
        },
{
    let ghost all = cells.deep_view();
    let mut plates: Vec<PlateInfo> = Vec::new();
    let n = cells.len();
    let mut i: usize = 0;
    while i < n
        invariant
            i <= n,
            n == cells@.len(),
            all == cells.deep_view(),
            spec_plates(all.take(i as int)) matches Ok(ps) && plates.deep_view() == ps,
        decreases n - i,
    {
        proof {
            assert(all.take(i + 1).drop_last() =~= all.take(i as int));
            assert(all.take(i + 1).last() == all[i as int]);
            assert(all[i as int] == cells@[i as int].deep_view());
        }
        let (plate_no_text, price_text) = &cells[i];
        if let Some(plate_no_text) = plate_no_text {
            if let Some(price_text) = price_text {
                let plate_no = trim(plate_no_text.as_str());
                match parse_price(price_text.as_str()) {
                    Ok(price) => {
                        let ghost before = plates.deep_view();
                        plates.push(PlateInfo { plate_no, price });
                        assert(plates.deep_view() =~= before.push(
                            (trim_seq(plate_no_text@), price),
                        ));
                    },
                    Err(kind) => {
                        proof {
                            lemma_plates_error_persists(all, i as int + 1);
                        }
                        return Err(Error::ParseError(kind.description().to_owned()));
                    },
                }
            }
        }
        i = i + 1;
    }
    assert(all.take(n as int) =~= all);
    Ok(plates)
}

/// Once a prefix of the cells fails to read, every longer prefix fails the same way.
proof fn lemma_plates_error_persists(cells: Seq<(Option<Seq<char>>, Option<Seq<char>>)>, k: int)
    requires
        0 <= k <= cells.len(),
        spec_plates(cells.take(k)) is Err,
    ensures
        spec_plates(cells) == spec_plates(cells.take(k)),
    decreases cells.len() - k,
{
    if k < cells.len() {
        assert(cells.take(k + 1).drop_last() =~= cells.take(k));
        lemma_plates_error_persists(cells, k + 1);
    } else {
        assert(cells.take(k) =~= cells);
    }
}

/// Whether a cell of a result table holds both a plate number and a price.
pub open spec fn is_complete_cell(cell: (Option<Seq<char>>, Option<Seq<char>>)) -> bool {
    cell.0 is Some && cell.1 is Some
}

/// The plate a cell offers when it holds a plate number and a price that reads: the
/// trimmed number and the price.
pub open spec fn cell_plate(cell: (Option<Seq<char>>, Option<Seq<char>>)) -> Option<(Seq<char>, i32)> {
    match cell {
        (Some(plate_no), Some(price)) => match spec_price(price) {
            Ok(p) => Some((trim_seq(plate_no), p)),
            Err(_) => None,
        },
        _ => None,
    }
}

/// The plates that the cells `cells` offer one by one, in cell order.
pub open spec fn plates_of_cells(cells: Seq<(Option<Seq<char>>, Option<Seq<char>>)>) -> Seq<
    (Seq<char>, i32),
> {
    cells.filter_map(|cell: (Option<Seq<char>>, Option<Seq<char>>)| cell_plate(cell))
}

/// How many of the cells `cells` hold both a plate number and a price.
pub open spec fn complete_cell_count(cells: Seq<(Option<Seq<char>>, Option<Seq<char>>)>) -> nat {
    cells.filter(|cell: (Option<Seq<char>>, Option<Seq<char>>)| is_complete_cell(cell)).len()
}

/// Whether every cell of `cells` that holds a plate number and a price has a price that
/// reads.
pub open spec fn all_prices_read(cells: Seq<(Option<Seq<char>>, Option<Seq<char>>)>) -> bool {
    forall|i: int|
        0 <= i < cells.len() && is_complete_cell(#[trigger] cells[i]) ==> spec_price(
            cells[i].1->Some_0,
        ) is Ok
}

/// Law: when every price on the page reads, each cell that holds a plate number and a
/// price gives exactly one plate, in cell order, whatever the prices are (two cells
/// with equal prices give two plates), so there are as many plates as such cells.
pub proof fn lemma_plates_one_per_complete_cell(cells: Seq<(Option<Seq<char>>, Option<Seq<char>>)>)
    requires
        all_prices_read(cells),
    ensures
        spec_plates(cells) == Ok::<Seq<(Seq<char>, i32)>, IntErrorKind>(plates_of_cells(cells)),
        plates_of_cells(cells).len() == complete_cell_count(cells),
    decreases cells.len(),
{
    if cells.len() > 0 {
        let rest = cells.drop_last();
        assert forall|i: int| 0 <= i < rest.len() && is_complete_cell(#[trigger] rest[i]) implies spec_price(
            rest[i].1->Some_0,
        ) is Ok by {
            assert(rest[i] == cells[i]);
        }
        lemma_plates_one_per_complete_cell(rest);
        let last = cells.last();
        assert(last == cells[cells.len() - 1]);
        reveal(Seq::filter);
        if is_complete_cell(last) {
            assert(plates_of_cells(cells) =~= plates_of_cells(rest).push(cell_plate(last)->Some_0));
        } else {
            assert(plates_of_cells(cells) =~= plates_of_cells(rest));
        }
    }
}

/// Law: when the price of a cell that holds a plate number and a price does not read,
/// and every such cell before it reads, the plates are refused with that price's error.
pub proof fn lemma_plates_stop_at_first_bad_price(
    cells: Seq<(Option<Seq<char>>, Option<Seq<char>>)>,
    k: int,
)
    requires
        0 <= k < cells.len(),
        is_complete_cell(cells[k]),
        spec_price(cells[k].1->Some_0) is Err,
        all_prices_read(cells.take(k)),
    ensures
        spec_plates(cells) == Err::<Seq<(Seq<char>, i32)>, IntErrorKind>(
            spec_price(cells[k].1->Some_0)->Err_0,
        ),
{
    lemma_plates_one_per_complete_cell(cells.take(k));
    assert(cells.take(k + 1).drop_last() =~= cells.take(k));
    assert(cells.take(k + 1).last() == cells[k]);
    lemma_plates_error_persists(cells, k + 1);
}

/// A plate number on offer and its price.
#[derive(Debug, Clone)]
pub struct PlateInfo {
    pub plate_no: String,
    pub price: i32,
}

impl DeepView for PlateInfo {
    type V = (Seq<char>, i32);

    open spec fn deep_view(&self) -> (Seq<char>, i32) {
        (self.plate_no@, self.price)
    }
}

/// An error of a query.
#[derive(Debug)]
pub enum Error {
    /// The site rejected the captcha answer.
    CaptchaError,
    /// A request failed.
    ReqwestError(HttpError),
    /// A price on the page did not read as a number; the message says why.
    ParseError(String),
    /// The query holds no page to read.
    NoDocumentFound,
    /// The captcha could not be read.
    OcrError(OcrError),
}

/// Formats a `reqwest::Error` with its `Display` impl. Nothing is stated of the text:
/// it is whatever the error's own message is.
#[verifier::external_body]
fn http_error_message(err: &HttpError) -> String {
    format!("{}", err)
}

/// The text the message of a request error starts with.
pub open spec fn request_error_prefix() -> Seq<char> {
    "Reqwest error: "@
}

/// The text the message of a captcha reader error starts with.
pub open spec fn ocr_failure_prefix() -> Seq<char> {
    "OCR error: "@ + crate::ocr::ocr_error_prefix()
}

impl Error {
    /// The message of this error.
    pub fn to_string(&self) -> (s: String)
        ensures
            match self {
                Error::CaptchaError => s@ == "Captcha error"@,
                Error::ReqwestError(_) => s@.len() >= request_error_prefix().len() && s@.subrange(
                    0,
                    request_error_prefix().len() as int,
                ) == request_error_prefix(),
                Error::ParseError(m) => s@ == "Parse error: "@ + m@,
                Error::NoDocumentFound => s@ == "No document found"@,
                Error::OcrError(_) => s@.len() >= ocr_failure_prefix().len() && s@.subrange(
                    0,
                    ocr_failure_prefix().len() as int,
                ) == ocr_failure_prefix(),
            },
    {
        match self {
            Error::CaptchaError => "Captcha error".to_owned(),
            Error::ReqwestError(err) => {
                let s = "Reqwest error: ".to_owned().concat(http_error_message(err).as_str());
                assert(s@.subrange(0, request_error_prefix().len() as int)
                    =~= request_error_prefix());
                s
            },
            Error::ParseError(m) => "Parse error: ".to_owned().concat(m.as_str()),
            Error::NoDocumentFound => "No document found".to_owned(),
            Error::OcrError(err) => {
                let inner = err.to_string();
                let s = "OCR error: ".to_owned().concat(inner.as_str());
                assert(s@.subrange(0, ocr_failure_prefix().len() as int) =~= ocr_failure_prefix());
                s
            },
        }
    }
}

impl vstd::std_specs::convert::FromSpecImpl<HttpError> for Error {
    open spec fn obeys_from_spec() -> bool {
        true
    }

    open spec fn from_spec(err: HttpError) -> Self {
        Error::ReqwestError(err)
    }
}

impl From<HttpError> for Error {
    fn from(err: HttpError) -> (r: Self) {
        Error::ReqwestError(err)
    }
}

impl vstd::std_specs::convert::FromSpecImpl<OcrError> for Error {
    open spec fn obeys_from_spec() -> bool {
        true
    }

    open spec fn from_spec(err: OcrError) -> Self {
        Error::OcrError(err)
    }
}

impl From<OcrError> for Error {
    fn from(err: OcrError) -> (r: Self) {
        Error::OcrError(err)
    }
}

} // verus!
