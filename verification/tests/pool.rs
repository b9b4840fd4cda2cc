use mvdis_license_plate_query::options::{PlateType, PlateVer, Region, Station, WindowNo};
use mvdis_license_plate_query::pool::{should_retry, PlatesByStation, PoolClientOptions, StationQuery};
use mvdis_license_plate_query::{Error, PlateInfo};

fn plate(no: &str, price: i32) -> PlateInfo {
    PlateInfo { plate_no: no.to_string(), price }
}

#[test]
fn default_options() {
    let o = PoolClientOptions::with_available_parallelism(Some(8));
    assert_eq!(o.plate_ver, PlateVer::New);
    assert_eq!(o.plate_type, PlateType::MotorcycleElectricNormalHeavy);
    assert!(o.stations.is_none());
    assert_eq!(o.retry_times, 3);
    assert_eq!(o.concurrency, 8);
    assert_eq!(PoolClientOptions::with_available_parallelism(None).concurrency, 4);
}

#[test]
fn concurrency_is_at_least_one() {
    let mut o = PoolClientOptions::with_available_parallelism(None);
    o.concurrency = 0;
    assert_eq!(o.concurrency_limit(), 1);
    o.concurrency = 6;
    assert_eq!(o.concurrency_limit(), 6);
}

#[test]
fn plan_covers_every_station_by_default() {
    let o = PoolClientOptions::with_available_parallelism(Some(2));
    let plan = o.query_plan();
    assert_eq!(plan.len(), 37);
    for (q, s) in plan.iter().zip(Station::all()) {
        assert_eq!(q.station, s);
        assert_eq!(q.region, s.region());
        assert_eq!(q.window_no, WindowNo::One);
        assert_eq!(q.plate_type, PlateType::MotorcycleElectricNormalHeavy);
    }
}

#[test]
fn plan_for_chosen_stations() {
    let mut o = PoolClientOptions::with_available_parallelism(Some(2));
    o.stations = Some(vec![Station::Penghu, Station::Shilin]);
    let plan = o.query_plan();
    assert_eq!(plan.len(), 2);
    assert_eq!(plan[0].station, Station::Penghu);
    assert_eq!(plan[0].region, Region::KaohsiungDistrict);
    assert_eq!(plan[1].region, Region::Taipei);
    o.stations = Some(vec![]);
    assert!(o.query_plan().is_empty());
}

#[test]
fn only_captcha_errors_are_retried() {
    assert!(should_retry(&Error::CaptchaError, 0, 3));
    assert!(should_retry(&Error::CaptchaError, 2, 3));
    assert!(!should_retry(&Error::CaptchaError, 3, 3));
    assert!(!should_retry(&Error::NoDocumentFound, 0, 3));
    assert!(!should_retry(&Error::ParseError("x".to_string()), 0, 3));
}

#[test]
fn plates_are_gathered_by_station() {
    let mut r = PlatesByStation::new();
    r.add(Station::Shilin, vec![plate("A", 1)]);
    r.add(Station::Penghu, vec![plate("B", 2)]);
    r.add(Station::Shilin, vec![plate("C", 3), plate("D", 4)]);
    r.add(Station::Penghu, vec![]);
    let entries: Vec<(Station, Vec<(String, i32)>)> = r
        .into_entries()
        .into_iter()
        .map(|(s, ps)| (s, ps.into_iter().map(|p| (p.plate_no, p.price)).collect()))
        .collect();
    assert_eq!(
        entries,
        vec![
            (
                Station::Shilin,
                vec![("A".to_string(), 1), ("C".to_string(), 3), ("D".to_string(), 4)]
            ),
            (Station::Penghu, vec![("B".to_string(), 2)]),
        ]
    );
}

#[test]
fn a_station_query_retries_rejected_captchas_up_to_the_limit() {
    let mut q = StationQuery::new(Station::Yilan, 2);
    assert!(q.on_send_error(Error::CaptchaError).is_ok());
    assert!(q.on_send_error(Error::CaptchaError).is_ok());
    assert_eq!(q.attempts(), 2);
    assert!(matches!(q.on_send_error(Error::CaptchaError), Err(Error::CaptchaError)));
    assert_eq!(q.attempts(), 2);
    let mut q = StationQuery::new(Station::Yilan, 2);
    assert!(matches!(q.on_send_error(Error::NoDocumentFound), Err(Error::NoDocumentFound)));
    assert_eq!(q.attempts(), 0);
}

#[test]
fn a_station_query_gathers_its_pages_in_order() {
    let mut q = StationQuery::new(Station::Taoyuan, 3);
    assert!(q.on_page(Ok(Some(vec![plate("A", 1), plate("B", 2)]))).is_ok());
    assert!(q.on_page(Ok(None)).is_ok());
    assert!(q.on_page(Ok(Some(vec![plate("C", 3)]))).is_ok());
    assert!(matches!(
        q.on_page(Err(Error::ParseError("bad".to_string()))),
        Err(Error::ParseError(_))
    ));
    let (station, plates) = q.into_result();
    assert_eq!(station, Station::Taoyuan);
    let got: Vec<(String, i32)> = plates.into_iter().map(|p| (p.plate_no, p.price)).collect();
    assert_eq!(got, vec![("A".to_string(), 1), ("B".to_string(), 2), ("C".to_string(), 3)]);
}
