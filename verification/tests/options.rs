use mvdis_license_plate_query::options::{
    get_plate_type, get_station, EnegryType, PlateType, PlateVer, Region, Station, VehicleType,
    WindowNo,
};

#[test]
fn plate_ver_codes_and_names() {
    assert_eq!(PlateVer::Old.as_str(), "1");
    assert_eq!(PlateVer::New.as_str(), "2");
    assert_eq!(PlateVer::Old.as_name(), "原型式車牌");
    assert_eq!(PlateVer::New.as_name(), "新式車牌");
}

#[test]
fn vehicle_and_energy_codes_and_names() {
    assert_eq!(VehicleType::Car.as_str(), "C");
    assert_eq!(VehicleType::Motorcycle.as_str(), "M");
    assert_eq!(VehicleType::Trailer.as_str(), "T");
    assert_eq!(VehicleType::Trailer.as_name(), "拖車");
    assert_eq!(EnegryType::NonElectric.as_str(), "C");
    assert_eq!(EnegryType::Electric.as_str(), "E");
    assert_eq!(EnegryType::Electric.as_name(), "電能");
}

#[test]
fn region_codes_and_names() {
    assert_eq!(Region::Taipei.as_str(), "2");
    assert_eq!(Region::KaohsiungDistrict.as_str(), "8");
    assert_eq!(Region::TaichungDistrict.as_name(), "臺中區");
    let regions = Region::all();
    let codes: Vec<&str> = regions.iter().map(|r| r.as_str()).collect();
    assert_eq!(codes, vec!["2", "3", "4", "5", "6", "7", "8"]);
}

#[test]
fn plate_type_codes_names_and_classification() {
    assert_eq!(PlateType::CarTour.as_str(), "a");
    assert_eq!(PlateType::MotorcycleElectricNormalHeavy.as_str(), "P");
    assert_eq!(PlateType::Motorcycle550ccBelow.as_name(), "550cc以下重機");
    assert_eq!(PlateType::TrailerBusiness.vehicle_type(), VehicleType::Trailer);
    assert_eq!(PlateType::CarElectricRent.energy_type(), EnegryType::Electric);
    assert_eq!(PlateType::MotorcycleNormalLight.energy_type(), EnegryType::NonElectric);
}

#[test]
fn plate_types_by_vehicle_and_energy() {
    assert_eq!(get_plate_type(VehicleType::Car, EnegryType::NonElectric).len(), 10);
    assert_eq!(
        get_plate_type(VehicleType::Car, EnegryType::Electric),
        vec![
            PlateType::CarElectricOwn,
            PlateType::CarElectricRent,
            PlateType::CarElectricBusiness,
            PlateType::CarElectricBigBusiness,
        ]
    );
    assert_eq!(
        get_plate_type(VehicleType::Trailer, EnegryType::NonElectric),
        vec![PlateType::TrailerOwn, PlateType::TrailerBusiness]
    );
    assert!(get_plate_type(VehicleType::Trailer, EnegryType::Electric).is_empty());
    let vehicles = [VehicleType::Car, VehicleType::Motorcycle, VehicleType::Trailer];
    let energies = [EnegryType::NonElectric, EnegryType::Electric];
    let mut total = 0;
    for v in vehicles {
        for e in energies {
            for p in get_plate_type(v, e) {
                assert_eq!(p.vehicle_type(), v);
                assert_eq!(p.energy_type(), e);
                total += 1;
            }
        }
    }
    assert_eq!(total, 24);
}

#[test]
fn stations_by_region() {
    assert_eq!(
        get_station(Region::Kaohsiung),
        vec![Station::KaohsiungCity, Station::Lingya, Station::Qishan]
    );
    assert_eq!(get_station(Region::ChiayiDistrict).len(), 7);
    let mut listed = Vec::new();
    for r in Region::all() {
        for s in get_station(r) {
            assert_eq!(s.region(), r);
            assert!(s.as_str().starts_with(r.as_str()));
            listed.push(s);
        }
    }
    assert_eq!(listed, Station::all());
    assert_eq!(listed.len(), 37);
}

#[test]
fn station_codes_are_distinct() {
    let all = Station::all();
    for (i, a) in all.iter().enumerate() {
        for b in all.iter().skip(i + 1) {
            assert_ne!(a.as_str(), b.as_str());
        }
    }
    assert_eq!(Station::Penghu.as_str(), "84");
    assert_eq!(Station::Yuli.as_name(), "玉里監理分站");
    assert_eq!(Station::TaipeiCity.region(), Region::Taipei);
}

#[test]
fn window_codes() {
    assert_eq!(WindowNo::One.as_str(), "01");
    assert_eq!(WindowNo::all(), vec![WindowNo::One]);
}

#[test]
fn every_option_list_holds_each_value_once() {
    assert_eq!(PlateVer::all(), vec![PlateVer::Old, PlateVer::New]);
    assert_eq!(
        VehicleType::all(),
        vec![VehicleType::Car, VehicleType::Motorcycle, VehicleType::Trailer]
    );
    assert_eq!(EnegryType::all(), vec![EnegryType::NonElectric, EnegryType::Electric]);
    let plates = PlateType::all();
    assert_eq!(plates.len(), 24);
    assert_eq!(plates[0], PlateType::CarOwn);
    assert_eq!(plates[23], PlateType::TrailerBusiness);
    for (i, a) in plates.iter().enumerate() {
        for b in plates.iter().skip(i + 1) {
            assert_ne!(a, b);
            assert_ne!(a.as_str(), b.as_str());
        }
    }
}
