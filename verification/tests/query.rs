use std::sync::Arc;

use mvdis_license_plate_query::ocr::OcrError;
use mvdis_license_plate_query::options::{PlateType, PlateVer, Region, Station, WindowNo};
use mvdis_license_plate_query::text::IntErrorKind;
use mvdis_license_plate_query::{
    csrf_token_from_page, header_rejects_captcha, parse_price, plates_from_cells, query_payload,
    Client, ClientBuilder, Error, PlateInfo, QueryBuilder, QueryOptions, DEFAULT_BASE_URL,
};

fn client(base: &str) -> Arc<Client> {
    Arc::new(
        ClientBuilder::new_with_client(reqwest::Client::new())
            .base_url(base)
            .build(),
    )
}

fn options() -> QueryOptions {
    QueryOptions {
        plate_ver: PlateVer::New,
        plate_type: PlateType::Motorcycle550ccBelow,
        region: Region::Taipei,
        station: Station::TaipeiCity,
        window_no: WindowNo::One,
    }
}

const RESULTS_PAGE: &str = r##"<html><body>
<table id="countList"><tbody><tr>
<td><div class="number_cell"><a class="number" href="#"> ABC-1234 </a><div class="price">1,200元</div></div></td>
<td><div class="number_cell"><a class="number" href="#">XYZ-0001</a><div class="price"> 3000 </div></div></td>
<td><div class="number_cell"><div class="price">500</div></div></td>
<td><div class="number_cell"><a class="number" href="#">NOP-0002</a></div></td>
</tr></tbody></table>
<a id="next" href="/m3-emv-plate/webpickno/queryPickNo?page=2">next</a>
</body></html>"##;

#[test]
fn builder_defaults_and_urls() {
    let c = ClientBuilder::new_with_client(reqwest::Client::new()).build();
    assert_eq!(c.base_url(), DEFAULT_BASE_URL);
    assert_eq!(
        c.query_page_url(),
        "https://www.mvdis.gov.tw/m3-emv-plate/webpickno/queryPickNo"
    );
    assert_eq!(
        c.captcha_image_url(),
        "https://www.mvdis.gov.tw/m3-emv-plate/captchaImg.jpg"
    );
    let c = client("http://localhost:8080");
    assert_eq!(c.query_page_url(), "http://localhost:8080/m3-emv-plate/webpickno/queryPickNo");
}

#[test]
fn csrf_token_is_read_from_the_form() {
    let page = r#"<form><input type="hidden" name="CSRFToken" value="tok-123"></form>"#;
    assert_eq!(csrf_token_from_page(page), Some("tok-123".to_string()));
    assert_eq!(csrf_token_from_page("<form></form>"), None);
}

#[test]
fn payload_fields() {
    let fields = query_payload("tok", "1234", &options(), None);
    let expected: Vec<(String, String)> = [
        ("method", "qryPickNo"),
        ("selDeptCode", "2"),
        ("selStationCode", "20"),
        ("selWindowNo", "01"),
        ("selPlateType", "F"),
        ("plateVer", "2"),
        ("validateStr", "1234"),
        ("queryType", "0"),
        ("queryNo", "*"),
        ("CSRFToken", "tok"),
    ]
    .iter()
    .map(|(a, b)| (a.to_string(), b.to_string()))
    .collect();
    assert_eq!(fields, expected);
    let fields = query_payload("tok", "1234", &options(), Some("88*"));
    assert_eq!(fields[8], ("queryNo".to_string(), "88*".to_string()));
}

#[test]
fn prices_read_like_the_site_writes_them() {
    assert_eq!(parse_price("1,200元"), Ok(1200));
    assert_eq!(parse_price("  36,000 "), Ok(36000));
    assert_eq!(parse_price("-5"), Ok(-5));
    assert_eq!(parse_price("1,200 元"), Err(IntErrorKind::InvalidDigit));
    assert_eq!(parse_price("元"), Err(IntErrorKind::Empty));
    assert_eq!(parse_price("9,999,999,999"), Err(IntErrorKind::PosOverflow));
}

#[test]
fn captcha_rejection_is_an_error() {
    let page = "<table><tr><td id=\"headerMessage\">驗證數字輸入錯誤</td></tr></table>";
    let r = QueryBuilder::new(client(DEFAULT_BASE_URL), options()).into_query(page.to_string());
    assert!(matches!(r, Err(Error::CaptchaError)));
}

#[test]
fn other_header_messages_are_kept() {
    let page = "<table><tr><td id=\"headerMessage\">查無資料</td></tr></table>";
    let q = QueryBuilder::new(client(DEFAULT_BASE_URL), options())
        .into_query(page.to_string())
        .ok()
        .unwrap();
    assert!(q.results().ok().unwrap().unwrap().is_empty());
}

#[test]
fn query_no_pattern_is_kept() {
    let b = QueryBuilder::new(client(DEFAULT_BASE_URL), options());
    assert_eq!(b.query_no_pattern(), None);
    let b = b.query_no("12*");
    assert_eq!(b.query_no_pattern(), Some("12*"));
    assert_eq!(b.options().station, Station::TaipeiCity);
}

#[test]
fn results_list_the_plates_of_the_page() {
    let q = QueryBuilder::new(client("http://h"), options())
        .into_query(RESULTS_PAGE.to_string())
        .ok()
        .unwrap();
    let plates: Vec<PlateInfo> = q.results().ok().unwrap().unwrap();
    let got: Vec<(String, i32)> = plates.into_iter().map(|p| (p.plate_no, p.price)).collect();
    assert_eq!(
        got,
        vec![("ABC-1234".to_string(), 1200), ("XYZ-0001".to_string(), 3000)]
    );
}

#[test]
fn a_bad_price_is_a_parse_error() {
    let page = r#"<table id="countList"><tbody><tr><td><div class="number_cell"><a class="number">A-1</a><div class="price">free</div></div></td></tr></tbody></table>"#;
    let q = QueryBuilder::new(client("http://h"), options())
        .into_query(page.to_string())
        .ok()
        .unwrap();
    match q.results() {
        Err(Error::ParseError(m)) => assert_eq!(m, "invalid digit found in string"),
        _ => panic!("expected a parse error"),
    }
}

#[test]
fn next_page_url_follows_the_link() {
    let mut q = QueryBuilder::new(client("http://h"), options())
        .into_query(RESULTS_PAGE.to_string())
        .ok()
        .unwrap();
    assert_eq!(
        q.next_page_url().ok().unwrap(),
        Some("http://h/m3-emv-plate/webpickno/queryPickNo?page=2".to_string())
    );
    q.set_document("<html></html>".to_string());
    assert_eq!(q.next_page_url().ok().unwrap(), None);
    assert!(q.results().ok().unwrap().unwrap().is_empty());
}

#[test]
fn error_messages() {
    assert_eq!(Error::CaptchaError.to_string(), "Captcha error");
    assert_eq!(Error::NoDocumentFound.to_string(), "No document found");
    assert_eq!(
        Error::ParseError("invalid digit found in string".to_string()).to_string(),
        "Parse error: invalid digit found in string"
    );
    let ocr = OcrError::from(anyhow::Error::msg("lock poisoned"));
    assert_eq!(ocr.to_string(), "Ddddocr error: lock poisoned");
    assert_eq!(Error::from(ocr).to_string(), "OCR error: Ddddocr error: lock poisoned");
}

fn cell(no: Option<&str>, price: Option<&str>) -> (Option<String>, Option<String>) {
    (no.map(|s| s.to_string()), price.map(|s| s.to_string()))
}

#[test]
fn plates_from_cells_keeps_complete_cells_in_order() {
    let cells = vec![
        cell(Some(" AAA-0001\n"), Some("8,000元")),
        cell(None, Some("1")),
        cell(Some("BBB-0002"), None),
        cell(Some("CCC-0003"), Some("\u{3000}12,345 ")),
    ];
    let plates = plates_from_cells(&cells).ok().unwrap();
    let got: Vec<(String, i32)> = plates.into_iter().map(|p| (p.plate_no, p.price)).collect();
    assert_eq!(got, vec![("AAA-0001".to_string(), 8000), ("CCC-0003".to_string(), 12345)]);
    assert!(plates_from_cells(&vec![]).ok().unwrap().is_empty());
}

#[test]
fn plates_from_cells_stops_at_the_first_bad_price() {
    let cells = vec![
        cell(Some("A"), Some("1")),
        cell(Some("B"), Some("")),
        cell(Some("C"), Some("x")),
    ];
    match plates_from_cells(&cells) {
        Err(Error::ParseError(m)) => assert_eq!(m, "cannot parse integer from empty string"),
        _ => panic!("expected a parse error"),
    }
    let cells = vec![cell(Some("A"), Some("99,999,999,999"))];
    match plates_from_cells(&cells) {
        Err(Error::ParseError(m)) => assert_eq!(m, "number too large to fit in target type"),
        _ => panic!("expected a parse error"),
    }
}

#[test]
fn captcha_rejection_header() {
    assert!(header_rejects_captcha(&Some("驗證數字輸入錯誤！".to_string())));
    assert!(!header_rejects_captcha(&Some("查無資料".to_string())));
    assert!(!header_rejects_captcha(&None));
}

#[test]
fn url_for_joins_the_site_address() {
    let c = client("http://example.test");
    assert_eq!(c.url_for("/a?b=1"), "http://example.test/a?b=1");
    assert_eq!(c.url_for(""), "http://example.test");
}

fn site_price(n: i32) -> String {
    let digits = n.to_string();
    let mut out = String::new();
    for (i, c) in digits.chars().enumerate() {
        if i > 0 && (digits.len() - i) % 3 == 0 {
            out.push(',');
        }
        out.push(c);
    }
    out.push('元');
    out
}

#[test]
fn site_written_prices_read_back() {
    assert_eq!(site_price(1234567), "1,234,567元");
    for n in [0, 5, 999, 1000, 1200, 36000, 100000, 1234567, i32::MAX] {
        assert_eq!(parse_price(&site_price(n)), Ok(n), "price {}", n);
    }
}
