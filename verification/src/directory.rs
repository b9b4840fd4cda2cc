//! The site's directory of query options: the numbers and names the query site gives
//! its regional offices and stations, the codes and names of the kinds of plate,
//! vehicle and energy, and the laws that tie each option's form code, display name,
//! classification and list to them.

use crate::options::{
    spec_plate_types, spec_stations, EnegryType, PlateType, PlateVer, Region, Station,
    VehicleType, WindowNo,
};
use crate::text::decimal_digits;
use vstd::prelude::*;

verus! {

/// The site's regional offices, in the order it lists them: each with its number and
/// its name.
pub open spec fn region_directory() -> Seq<(Region, nat, Seq<char>)> {
    seq![
        (Region::Taipei, 2, "臺北市"@),
        (Region::Kaohsiung, 3, "高雄市"@),
        (Region::TaipeiDistrict, 4, "臺北區"@),
        (Region::HsinchuDistrict, 5, "新竹區"@),
        (Region::TaichungDistrict, 6, "臺中區"@),
        (Region::ChiayiDistrict, 7, "嘉義區"@),
        (Region::KaohsiungDistrict, 8, "高雄區"@),
    ]
}

/// The site's stations, in the order it lists them: each with its number and its name.
/// The tens digit of a station's number is the number of its regional office.
pub open spec fn station_directory() -> Seq<(Station, nat, Seq<char>)> {
    seq![
        (Station::TaipeiCity, 20, "臺北市區監理所"@),
        (Station::Shilin, 21, "士林監理站"@),
        (Station::Keelung, 25, "基隆監理站"@),
        (Station::Kinmen, 26, "金門監理站"@),
        (Station::Lienchiang, 28, "連江監理站"@),
        (Station::KaohsiungCity, 30, "高雄市區監理所"@),
        (Station::Lingya, 31, "苓雅監理站"@),
        (Station::Qishan, 33, "旗山監理站"@),
        (Station::TaipeiDistrict, 40, "臺北區監理所"@),
        (Station::Banqiao, 41, "板橋監理站"@),
        (Station::Yilan, 43, "宜蘭監理站"@),
        (Station::Hualien, 44, "花蓮監理站"@),
        (Station::Yuli, 45, "玉里監理分站"@),
        (Station::Luzhou, 46, "蘆洲監理站"@),
        (Station::HsinchuDistrict, 50, "新竹區監理所"@),
        (Station::HsinchuCity, 51, "新竹市監理站"@),
        (Station::Taoyuan, 52, "桃園監理站"@),
        (Station::Zhongli, 53, "中壢監理站"@),
        (Station::Miaoli, 54, "苗栗監理站"@),
        (Station::TaichungDistrict, 60, "臺中區監理所"@),
        (Station::TaichungCity, 61, "臺中市監理站"@),
        (Station::Puli, 62, "埔里監理分站"@),
        (Station::Fengyuan, 63, "豐原監理站"@),
        (Station::Changhua, 64, "彰化監理站"@),
        (Station::Nantou, 65, "南投監理站"@),
        (Station::ChiayiDistrict, 70, "嘉義區監理所"@),
        (Station::Dongshi, 71, "東勢監理分站"@),
        (Station::Yunlin, 72, "雲林監理站"@),
        (Station::Xinying, 73, "新營監理站"@),
        (Station::Tainan, 74, "臺南監理站"@),
        (Station::Madou, 75, "麻豆監理站"@),
        (Station::ChiayiCity, 76, "嘉義市監理站"@),
        (Station::KaohsiungDistrict, 80, "高雄區監理所"@),
        (Station::Taitung, 81, "臺東監理站"@),
        (Station::Pingtung, 82, "屏東監理站"@),
        (Station::Hengchun, 83, "恆春監理分站"@),
        (Station::Penghu, 84, "澎湖監理站"@),
    ]
}

/// The site's plate styles, in the order it lists them: each with its number and its
/// name.
pub open spec fn plate_ver_directory() -> Seq<(PlateVer, nat, Seq<char>)> {
    seq![
        (PlateVer::Old, 1, "原型式車牌"@),
        (PlateVer::New, 2, "新式車牌"@),
    ]
}

/// The site's kinds of vehicle, in the order it lists them: each with its letter and
/// its name.
pub open spec fn vehicle_type_directory() -> Seq<(VehicleType, char, Seq<char>)> {
    seq![
        (VehicleType::Car, 'C', "汽車"@),
        (VehicleType::Motorcycle, 'M', "機車"@),
        (VehicleType::Trailer, 'T', "拖車"@),
    ]
}

/// The site's kinds of energy, in the order it lists them: each with its letter and
/// its name.
pub open spec fn energy_type_directory() -> Seq<(EnegryType, char, Seq<char>)> {
    seq![
        (EnegryType::NonElectric, 'C', "非電能"@),
        (EnegryType::Electric, 'E', "電能"@),
    ]
}

/// The site's kinds of plate, in the order it lists them: each with its letter and its
/// name.
pub open spec fn plate_type_directory() -> Seq<(PlateType, char, Seq<char>)> {
    seq![
        (PlateType::CarOwn, '1', "自用小客貨車"@),
        (PlateType::CarRent, '2', "租賃小客貨車"@),
        (PlateType::CarBusiness, '3', "營業小客車"@),
        (PlateType::CarBusinessT, '4', "營業小貨車"@),
        (PlateType::CarBigOwn, '5', "自用大客車"@),
        (PlateType::CarBigRent, '6', "自用大貨車"@),
        (PlateType::CarBigBusiness, '7', "營業大客車"@),
        (PlateType::CarBigBusinessT, '8', "營業大貨車"@),
        (PlateType::CarBigBusinessContainer, '9', "營業貨櫃曳引"@),
        (PlateType::CarTour, 'a', "遊覽大客車"@),
        (PlateType::CarElectricOwn, 'g', "電動自小客"@),
        (PlateType::CarElectricRent, 'h', "電動租賃車"@),
        (PlateType::CarElectricBusiness, 'i', "電動小營客車"@),
        (PlateType::CarElectricBigBusiness, 'j', "電動大營客車"@),
        (PlateType::Motorcycle550ccBelow, 'F', "550cc以下重機"@),
        (PlateType::Motorcycle550ccAbove, 'G', "550cc以上重機"@),
        (PlateType::MotorcycleNormalHeavy, 'H', "普通重型機車"@),
        (PlateType::MotorcycleNormalLight, 'L', "普通輕型機車"@),
        (PlateType::MotorcycleElectric550ccBelow, 'N', "電動550cc以下重機"@),
        (PlateType::MotorcycleElectric550ccAbove, 'O', "電動550cc以上重機"@),
        (PlateType::MotorcycleElectricNormalHeavy, 'P', "電動普通重型機車"@),
        (PlateType::MotorcycleElectricNormalLight, 'Q', "電動普通輕型機車"@),
        (PlateType::TrailerOwn, 't', "自用拖車"@),
        (PlateType::TrailerBusiness, 'u', "營業拖車"@),
    ]
}

proof fn lemma_stations_as_directed_row(i: int)
    requires
        0 <= i < station_directory().len(),
    ensures
        Station::spec_all()[i] == station_directory()[i].0,
        station_directory()[i].0.code() == decimal_digits(station_directory()[i].1),
        station_directory()[i].0.name() == station_directory()[i].2,
        station_directory()[i].0.spec_region().code() == decimal_digits(station_directory()[i].1 / 10),
{
    reveal_with_fuel(decimal_digits, 3);
    if i == 0 {
        reveal_strlit("20");
        reveal_strlit("2");
    } else if i == 1 {
        reveal_strlit("21");
        reveal_strlit("2");
    } else if i == 2 {
        reveal_strlit("25");
        reveal_strlit("2");
    } else if i == 3 {
        reveal_strlit("26");
        reveal_strlit("2");
    } else if i == 4 {
        reveal_strlit("28");
        reveal_strlit("2");
    } else if i == 5 {
        reveal_strlit("30");
        reveal_strlit("3");
    } else if i == 6 {
        reveal_strlit("31");
        reveal_strlit("3");
    } else if i == 7 {
        reveal_strlit("33");
        reveal_strlit("3");
    } else if i == 8 {
        reveal_strlit("40");
        reveal_strlit("4");
    } else if i == 9 {
        reveal_strlit("41");
        reveal_strlit("4");
    } else if i == 10 {
        reveal_strlit("43");
        reveal_strlit("4");
    } else if i == 11 {
        reveal_strlit("44");
        reveal_strlit("4");
    } else if i == 12 {
        reveal_strlit("45");
        reveal_strlit("4");
    } else if i == 13 {
        reveal_strlit("46");
        reveal_strlit("4");
    } else if i == 14 {
        reveal_strlit("50");
        reveal_strlit("5");
    } else if i == 15 {
        reveal_strlit("51");
        reveal_strlit("5");
    } else if i == 16 {
        reveal_strlit("52");
        reveal_strlit("5");
    } else if i == 17 {
        reveal_strlit("53");
        reveal_strlit("5");
    } else if i == 18 {
        reveal_strlit("54");
        reveal_strlit("5");
    } else if i == 19 {
        reveal_strlit("60");
        reveal_strlit("6");
    } else if i == 20 {
        reveal_strlit("61");
        reveal_strlit("6");
    } else if i == 21 {
        reveal_strlit("62");
        reveal_strlit("6");
    } else if i == 22 {
        reveal_strlit("63");
        reveal_strlit("6");
    } else if i == 23 {
        reveal_strlit("64");
        reveal_strlit("6");
    } else if i == 24 {
        reveal_strlit("65");
        reveal_strlit("6");
    } else if i == 25 {
        reveal_strlit("70");
        reveal_strlit("7");
    } else if i == 26 {
        reveal_strlit("71");
        reveal_strlit("7");
    } else if i == 27 {
        reveal_strlit("72");
        reveal_strlit("7");
    } else if i == 28 {
        reveal_strlit("73");
        reveal_strlit("7");
    } else if i == 29 {
        reveal_strlit("74");
        reveal_strlit("7");
    } else if i == 30 {
        reveal_strlit("75");
        reveal_strlit("7");
    } else if i == 31 {
        reveal_strlit("76");
        reveal_strlit("7");
    } else if i == 32 {
        reveal_strlit("80");
        reveal_strlit("8");
    } else if i == 33 {
        reveal_strlit("81");
        reveal_strlit("8");
    } else if i == 34 {
        reveal_strlit("82");
        reveal_strlit("8");
    } else if i == 35 {
        reveal_strlit("83");
        reveal_strlit("8");
    } else if i == 36 {
        reveal_strlit("84");
        reveal_strlit("8");
    }
}

/// Law: the stations, in declaration order, are those of the site's directory, and each
/// sends its number as its form code, shows its own name, and belongs to the regional
/// office whose form code is the tens digit of that number.
pub proof fn lemma_stations_as_directed()
    ensures
        Station::spec_all().len() == station_directory().len(),
        forall|i: int|
            #![trigger station_directory()[i]]
            0 <= i < station_directory().len() ==> {
                &&& Station::spec_all()[i] == station_directory()[i].0
                &&& station_directory()[i].0.code() == decimal_digits(station_directory()[i].1)
                &&& station_directory()[i].0.name() == station_directory()[i].2
                &&& station_directory()[i].0.spec_region().code() == decimal_digits(station_directory()[i].1 / 10)
            },
{
    assert forall|i: int|
        #![trigger station_directory()[i]]
        0 <= i < station_directory().len() implies {
        &&& Station::spec_all()[i] == station_directory()[i].0
        &&& station_directory()[i].0.code() == decimal_digits(station_directory()[i].1)
        &&& station_directory()[i].0.name() == station_directory()[i].2
        &&& station_directory()[i].0.spec_region().code() == decimal_digits(station_directory()[i].1 / 10)
    } by {
        lemma_stations_as_directed_row(i);
    }
}

proof fn lemma_regions_as_directed_row(i: int)
    requires
        0 <= i < region_directory().len(),
    ensures
        Region::spec_all()[i] == region_directory()[i].0,
        region_directory()[i].0.code() == decimal_digits(region_directory()[i].1),
        region_directory()[i].0.name() == region_directory()[i].2,
{
    reveal_with_fuel(decimal_digits, 3);
    if i == 0 {
        reveal_strlit("2");
    } else if i == 1 {
        reveal_strlit("3");
    } else if i == 2 {
        reveal_strlit("4");
    } else if i == 3 {
        reveal_strlit("5");
    } else if i == 4 {
        reveal_strlit("6");
    } else if i == 5 {
        reveal_strlit("7");
    } else if i == 6 {
        reveal_strlit("8");
    }
}

/// Law: the regional offices, in declaration order, are those of the site's directory, and
/// each sends its number as its form code and shows its own name.
pub proof fn lemma_regions_as_directed()
    ensures
        Region::spec_all().len() == region_directory().len(),
        forall|i: int|
            #![trigger region_directory()[i]]
            0 <= i < region_directory().len() ==> {
                &&& Region::spec_all()[i] == region_directory()[i].0
                &&& region_directory()[i].0.code() == decimal_digits(region_directory()[i].1)
                &&& region_directory()[i].0.name() == region_directory()[i].2
            },
{
    assert forall|i: int|
        #![trigger region_directory()[i]]
        0 <= i < region_directory().len() implies {
        &&& Region::spec_all()[i] == region_directory()[i].0
        &&& region_directory()[i].0.code() == decimal_digits(region_directory()[i].1)
        &&& region_directory()[i].0.name() == region_directory()[i].2
    } by {
        lemma_regions_as_directed_row(i);
    }
}

proof fn lemma_plate_vers_as_directed_row(i: int)
    requires
        0 <= i < plate_ver_directory().len(),
    ensures
        PlateVer::spec_all()[i] == plate_ver_directory()[i].0,
        plate_ver_directory()[i].0.code() == decimal_digits(plate_ver_directory()[i].1),
        plate_ver_directory()[i].0.name() == plate_ver_directory()[i].2,
{
    reveal_with_fuel(decimal_digits, 3);
    if i == 0 {
        reveal_strlit("1");
    } else if i == 1 {
        reveal_strlit("2");
    }
}

/// Law: the plate styles, in declaration order, are those of the site's directory, and each
/// sends its number as its form code and shows its own name.
pub proof fn lemma_plate_vers_as_directed()
    ensures
        PlateVer::spec_all().len() == plate_ver_directory().len(),
        forall|i: int|
            #![trigger plate_ver_directory()[i]]
            0 <= i < plate_ver_directory().len() ==> {
                &&& PlateVer::spec_all()[i] == plate_ver_directory()[i].0
                &&& plate_ver_directory()[i].0.code() == decimal_digits(plate_ver_directory()[i].1)
                &&& plate_ver_directory()[i].0.name() == plate_ver_directory()[i].2
            },
{
    assert forall|i: int|
        #![trigger plate_ver_directory()[i]]
        0 <= i < plate_ver_directory().len() implies {
        &&& PlateVer::spec_all()[i] == plate_ver_directory()[i].0
        &&& plate_ver_directory()[i].0.code() == decimal_digits(plate_ver_directory()[i].1)
        &&& plate_ver_directory()[i].0.name() == plate_ver_directory()[i].2
    } by {
        lemma_plate_vers_as_directed_row(i);
    }
}

proof fn lemma_vehicle_types_as_directed_row(i: int)
    requires
        0 <= i < vehicle_type_directory().len(),
    ensures
        VehicleType::spec_all()[i] == vehicle_type_directory()[i].0,
        vehicle_type_directory()[i].0.code() == seq![vehicle_type_directory()[i].1],
        vehicle_type_directory()[i].0.name() == vehicle_type_directory()[i].2,
{
    if i == 0 {
        reveal_strlit("C");
    } else if i == 1 {
        reveal_strlit("M");
    } else if i == 2 {
        reveal_strlit("T");
    }
}

/// Law: the kinds of vehicle, in declaration order, are those of the site's directory, and
/// each sends its letter as its form code and shows its own name.
pub proof fn lemma_vehicle_types_as_directed()
    ensures
        VehicleType::spec_all().len() == vehicle_type_directory().len(),
        forall|i: int|
            #![trigger vehicle_type_directory()[i]]
            0 <= i < vehicle_type_directory().len() ==> {
                &&& VehicleType::spec_all()[i] == vehicle_type_directory()[i].0
                &&& vehicle_type_directory()[i].0.code() == seq![vehicle_type_directory()[i].1]
                &&& vehicle_type_directory()[i].0.name() == vehicle_type_directory()[i].2
            },
{
    assert forall|i: int|
        #![trigger vehicle_type_directory()[i]]
        0 <= i < vehicle_type_directory().len() implies {
        &&& VehicleType::spec_all()[i] == vehicle_type_directory()[i].0
        &&& vehicle_type_directory()[i].0.code() == seq![vehicle_type_directory()[i].1]
        &&& vehicle_type_directory()[i].0.name() == vehicle_type_directory()[i].2
    } by {
        lemma_vehicle_types_as_directed_row(i);
    }
}

proof fn lemma_energy_types_as_directed_row(i: int)
    requires
        0 <= i < energy_type_directory().len(),
    ensures
        EnegryType::spec_all()[i] == energy_type_directory()[i].0,
        energy_type_directory()[i].0.code() == seq![energy_type_directory()[i].1],
        energy_type_directory()[i].0.name() == energy_type_directory()[i].2,
{
    if i == 0 {
        reveal_strlit("C");
    } else if i == 1 {
        reveal_strlit("E");
    }
}

/// Law: the kinds of energy, in declaration order, are those of the site's directory, and
/// each sends its letter as its form code and shows its own name.
pub proof fn lemma_energy_types_as_directed()
    ensures
        EnegryType::spec_all().len() == energy_type_directory().len(),
        forall|i: int|
            #![trigger energy_type_directory()[i]]
            0 <= i < energy_type_directory().len() ==> {
                &&& EnegryType::spec_all()[i] == energy_type_directory()[i].0
                &&& energy_type_directory()[i].0.code() == seq![energy_type_directory()[i].1]
                &&& energy_type_directory()[i].0.name() == energy_type_directory()[i].2
            },
{
    assert forall|i: int|
        #![trigger energy_type_directory()[i]]
        0 <= i < energy_type_directory().len() implies {
        &&& EnegryType::spec_all()[i] == energy_type_directory()[i].0
        &&& energy_type_directory()[i].0.code() == seq![energy_type_directory()[i].1]
        &&& energy_type_directory()[i].0.name() == energy_type_directory()[i].2
    } by {
        lemma_energy_types_as_directed_row(i);
    }
}

proof fn lemma_plate_types_as_directed_row(i: int)
    requires
        0 <= i < plate_type_directory().len(),
    ensures
        PlateType::spec_all()[i] == plate_type_directory()[i].0,
        plate_type_directory()[i].0.code() == seq![plate_type_directory()[i].1],
        plate_type_directory()[i].0.name() == plate_type_directory()[i].2,
{
    if i == 0 {
        reveal_strlit("1");
    } else if i == 1 {
        reveal_strlit("2");
    } else if i == 2 {
        reveal_strlit("3");
    } else if i == 3 {
        reveal_strlit("4");
    } else if i == 4 {
        reveal_strlit("5");
    } else if i == 5 {
        reveal_strlit("6");
    } else if i == 6 {
        reveal_strlit("7");
    } else if i == 7 {
        reveal_strlit("8");
    } else if i == 8 {
        reveal_strlit("9");
    } else if i == 9 {
        reveal_strlit("a");
    } else if i == 10 {
        reveal_strlit("g");
    } else if i == 11 {
        reveal_strlit("h");
    } else if i == 12 {
        reveal_strlit("i");
    } else if i == 13 {
        reveal_strlit("j");
    } else if i == 14 {
        reveal_strlit("F");
    } else if i == 15 {
        reveal_strlit("G");
    } else if i == 16 {
        reveal_strlit("H");
    } else if i == 17 {
        reveal_strlit("L");
    } else if i == 18 {
        reveal_strlit("N");
    } else if i == 19 {
        reveal_strlit("O");
    } else if i == 20 {
        reveal_strlit("P");
    } else if i == 21 {
        reveal_strlit("Q");
    } else if i == 22 {
        reveal_strlit("t");
    } else if i == 23 {
        reveal_strlit("u");
    }
}

/// Law: the kinds of plate, in declaration order, are those of the site's directory, and
/// each sends its letter as its form code and shows its own name.
pub proof fn lemma_plate_types_as_directed()
    ensures
        PlateType::spec_all().len() == plate_type_directory().len(),
        forall|i: int|
            #![trigger plate_type_directory()[i]]
            0 <= i < plate_type_directory().len() ==> {
                &&& PlateType::spec_all()[i] == plate_type_directory()[i].0
                &&& plate_type_directory()[i].0.code() == seq![plate_type_directory()[i].1]
                &&& plate_type_directory()[i].0.name() == plate_type_directory()[i].2
            },
{
    assert forall|i: int|
        #![trigger plate_type_directory()[i]]
        0 <= i < plate_type_directory().len() implies {
        &&& PlateType::spec_all()[i] == plate_type_directory()[i].0
        &&& plate_type_directory()[i].0.code() == seq![plate_type_directory()[i].1]
        &&& plate_type_directory()[i].0.name() == plate_type_directory()[i].2
    } by {
        lemma_plate_types_as_directed_row(i);
    }
}

/// Law: the one pick-up window sends `01` as its form code.
pub proof fn lemma_windows_as_directed()
    ensures
        WindowNo::spec_all() == seq![WindowNo::One],
        WindowNo::One.code() == seq!['0', '1'],
{
    reveal_strlit("01");
    assert(WindowNo::spec_all() =~= seq![WindowNo::One]);
}

/// The mark of an electric kind of plate: its name begins with 電動.
pub open spec fn electric_mark() -> Seq<char> {
    "電動"@
}

/// The mark of a trailer's kind of plate: its name ends with 拖車.
pub open spec fn trailer_mark() -> Seq<char> {
    "拖車"@
}

/// Whether the name of a kind of plate is that of a motorcycle's: it ends with 機 (a
/// heavy motorcycle) or with 機車.
pub open spec fn names_motorcycle(name: Seq<char>) -> bool {
    name.len() >= 1 && (name.last() == '機' || (name.len() >= 2 && name[name.len() - 2] == '機'
        && name.last() == '車'))
}

/// The marks of a name read character by character.
proof fn lemma_marks_by_character(name: Seq<char>)
    ensures
        electric_mark().is_prefix_of(name) <==> (name.len() >= 2 && name[0] == '電' && name[1]
            == '動'),
        trailer_mark().is_suffix_of(name) <==> (name.len() >= 2 && name[name.len() - 2] == '拖'
            && name.last() == '車'),
{
    reveal_strlit("電動");
    reveal_strlit("拖車");
    if name.len() >= 2 {
        assert(name.subrange(0, 2)[0] == name[0]);
        assert(name.subrange(0, 2)[1] == name[1]);
        assert(name.subrange(name.len() - 2, name.len() as int)[0] == name[name.len() - 2]);
        assert(name.subrange(name.len() - 2, name.len() as int)[1] == name.last());
    }
}

/// Law: a kind of plate is for electric vehicles exactly when its name begins with 電動,
/// for motorcycles exactly when its name ends with 機 or 機車, and for trailers exactly
/// when its name ends with 拖車.
pub proof fn lemma_plate_type_classified_by_name(plate_type: PlateType)
    ensures
        plate_type.spec_energy_type() == EnegryType::Electric <==> electric_mark().is_prefix_of(
            plate_type.name(),
        ),
        plate_type.spec_vehicle_type() == VehicleType::Motorcycle <==> names_motorcycle(
            plate_type.name(),
        ),
        plate_type.spec_vehicle_type() == VehicleType::Trailer <==> trailer_mark().is_suffix_of(
            plate_type.name(),
        ),
{
    lemma_marks_by_character(plate_type.name());
    let name = plate_type.name();
    match plate_type {
        PlateType::CarOwn => reveal_strlit("自用小客貨車"),
        PlateType::CarRent => reveal_strlit("租賃小客貨車"),
        PlateType::CarBusiness => reveal_strlit("營業小客車"),
        PlateType::CarBusinessT => reveal_strlit("營業小貨車"),
        PlateType::CarBigOwn => reveal_strlit("自用大客車"),
        PlateType::CarBigRent => reveal_strlit("自用大貨車"),
        PlateType::CarBigBusiness => reveal_strlit("營業大客車"),
        PlateType::CarBigBusinessT => reveal_strlit("營業大貨車"),
        PlateType::CarBigBusinessContainer => reveal_strlit("營業貨櫃曳引"),
        PlateType::CarTour => reveal_strlit("遊覽大客車"),
        PlateType::CarElectricOwn => reveal_strlit("電動自小客"),
        PlateType::CarElectricRent => reveal_strlit("電動租賃車"),
        PlateType::CarElectricBusiness => reveal_strlit("電動小營客車"),
        PlateType::CarElectricBigBusiness => reveal_strlit("電動大營客車"),
        PlateType::Motorcycle550ccBelow => reveal_strlit("550cc以下重機"),
        PlateType::Motorcycle550ccAbove => reveal_strlit("550cc以上重機"),
        PlateType::MotorcycleNormalHeavy => reveal_strlit("普通重型機車"),
        PlateType::MotorcycleNormalLight => reveal_strlit("普通輕型機車"),
        PlateType::MotorcycleElectric550ccBelow => reveal_strlit("電動550cc以下重機"),
        PlateType::MotorcycleElectric550ccAbove => reveal_strlit("電動550cc以上重機"),
        PlateType::MotorcycleElectricNormalHeavy => reveal_strlit("電動普通重型機車"),
        PlateType::MotorcycleElectricNormalLight => reveal_strlit("電動普通輕型機車"),
        PlateType::TrailerOwn => reveal_strlit("自用拖車"),
        PlateType::TrailerBusiness => reveal_strlit("營業拖車"),
    }
}

/// The stations of the regional office `region`, in declaration order.
pub open spec fn stations_in_order(region: Region) -> Seq<Station> {
    Station::spec_all().filter(|station: Station| station.spec_region() == region)
}

#[verifier::rlimit(50)]
proof fn lemma_stations_of_Taipei_in_order()
    ensures
        spec_stations(Region::Taipei) == stations_in_order(Region::Taipei),
{
    reveal_with_fuel(Seq::<_>::filter, 38);
    assert(spec_stations(Region::Taipei) =~= stations_in_order(Region::Taipei));
}

#[verifier::rlimit(50)]
proof fn lemma_stations_of_Kaohsiung_in_order()
    ensures
        spec_stations(Region::Kaohsiung) == stations_in_order(Region::Kaohsiung),
{
    reveal_with_fuel(Seq::<_>::filter, 38);
    assert(spec_stations(Region::Kaohsiung) =~= stations_in_order(Region::Kaohsiung));
}

#[verifier::rlimit(50)]
proof fn lemma_stations_of_TaipeiDistrict_in_order()
    ensures
        spec_stations(Region::TaipeiDistrict) == stations_in_order(Region::TaipeiDistrict),
{
    reveal_with_fuel(Seq::<_>::filter, 38);
    assert(spec_stations(Region::TaipeiDistrict) =~= stations_in_order(Region::TaipeiDistrict));
}

#[verifier::rlimit(50)]
proof fn lemma_stations_of_HsinchuDistrict_in_order()
    ensures
        spec_stations(Region::HsinchuDistrict) == stations_in_order(Region::HsinchuDistrict),
{
    reveal_with_fuel(Seq::<_>::filter, 38);
    assert(spec_stations(Region::HsinchuDistrict) =~= stations_in_order(Region::HsinchuDistrict));
}

#[verifier::rlimit(50)]
proof fn lemma_stations_of_TaichungDistrict_in_order()
    ensures
        spec_stations(Region::TaichungDistrict) == stations_in_order(Region::TaichungDistrict),
{
    reveal_with_fuel(Seq::<_>::filter, 38);
    assert(spec_stations(Region::TaichungDistrict) =~= stations_in_order(Region::TaichungDistrict));
}

#[verifier::rlimit(50)]
proof fn lemma_stations_of_ChiayiDistrict_in_order()
    ensures
        spec_stations(Region::ChiayiDistrict) == stations_in_order(Region::ChiayiDistrict),
{
    reveal_with_fuel(Seq::<_>::filter, 38);
    assert(spec_stations(Region::ChiayiDistrict) =~= stations_in_order(Region::ChiayiDistrict));
}

#[verifier::rlimit(50)]
proof fn lemma_stations_of_KaohsiungDistrict_in_order()
    ensures
        spec_stations(Region::KaohsiungDistrict) == stations_in_order(Region::KaohsiungDistrict),
{
    reveal_with_fuel(Seq::<_>::filter, 38);
    assert(spec_stations(Region::KaohsiungDistrict) =~= stations_in_order(Region::KaohsiungDistrict));
}

/// Law: the list of a regional office's stations is every station of that office, in
/// declaration order, which is the order of the site's directory.
pub proof fn lemma_stations_listed_in_order(region: Region)
    ensures
        spec_stations(region) == stations_in_order(region),
{
    match region {
        Region::Taipei => lemma_stations_of_Taipei_in_order(),
        Region::Kaohsiung => lemma_stations_of_Kaohsiung_in_order(),
        Region::TaipeiDistrict => lemma_stations_of_TaipeiDistrict_in_order(),
        Region::HsinchuDistrict => lemma_stations_of_HsinchuDistrict_in_order(),
        Region::TaichungDistrict => lemma_stations_of_TaichungDistrict_in_order(),
        Region::ChiayiDistrict => lemma_stations_of_ChiayiDistrict_in_order(),
        Region::KaohsiungDistrict => lemma_stations_of_KaohsiungDistrict_in_order(),
    }
}

/// The kinds of plate for the kind of vehicle `vehicle_type` and the kind of energy
/// `energy_type`, in declaration order.
pub open spec fn plate_types_in_order(vehicle_type: VehicleType, energy_type: EnegryType) -> Seq<
    PlateType,
> {
    PlateType::spec_all().filter(
        |plate_type: PlateType|
            plate_type.spec_vehicle_type() == vehicle_type && plate_type.spec_energy_type()
                == energy_type,
    )
}

#[verifier::rlimit(50)]
proof fn lemma_plate_types_of_Car_NonElectric_in_order()
    ensures
        spec_plate_types(VehicleType::Car, EnegryType::NonElectric) == plate_types_in_order(
            VehicleType::Car,
            EnegryType::NonElectric,
        ),
{
    reveal_with_fuel(Seq::<_>::filter, 25);
    assert(spec_plate_types(VehicleType::Car, EnegryType::NonElectric) =~= plate_types_in_order(
        VehicleType::Car,
        EnegryType::NonElectric,
    ));
}

#[verifier::rlimit(50)]
proof fn lemma_plate_types_of_Car_Electric_in_order()
    ensures
        spec_plate_types(VehicleType::Car, EnegryType::Electric) == plate_types_in_order(
            VehicleType::Car,
            EnegryType::Electric,
        ),
{
    reveal_with_fuel(Seq::<_>::filter, 25);
    assert(spec_plate_types(VehicleType::Car, EnegryType::Electric) =~= plate_types_in_order(
        VehicleType::Car,
        EnegryType::Electric,
    ));
}

#[verifier::rlimit(50)]
proof fn lemma_plate_types_of_Motorcycle_NonElectric_in_order()
    ensures
        spec_plate_types(VehicleType::Motorcycle, EnegryType::NonElectric) == plate_types_in_order(
            VehicleType::Motorcycle,
            EnegryType::NonElectric,
        ),
{
    reveal_with_fuel(Seq::<_>::filter, 25);
    assert(spec_plate_types(VehicleType::Motorcycle, EnegryType::NonElectric) =~= plate_types_in_order(
        VehicleType::Motorcycle,
        EnegryType::NonElectric,
    ));
}

#[verifier::rlimit(50)]
proof fn lemma_plate_types_of_Motorcycle_Electric_in_order()
    ensures
        spec_plate_types(VehicleType::Motorcycle, EnegryType::Electric) == plate_types_in_order(
            VehicleType::Motorcycle,
            EnegryType::Electric,
        ),
{
    reveal_with_fuel(Seq::<_>::filter, 25);
    assert(spec_plate_types(VehicleType::Motorcycle, EnegryType::Electric) =~= plate_types_in_order(
        VehicleType::Motorcycle,
        EnegryType::Electric,
    ));
}

#[verifier::rlimit(50)]
proof fn lemma_plate_types_of_Trailer_NonElectric_in_order()
    ensures
        spec_plate_types(VehicleType::Trailer, EnegryType::NonElectric) == plate_types_in_order(
            VehicleType::Trailer,
            EnegryType::NonElectric,
        ),
{
    reveal_with_fuel(Seq::<_>::filter, 25);
    assert(spec_plate_types(VehicleType::Trailer, EnegryType::NonElectric) =~= plate_types_in_order(
        VehicleType::Trailer,
        EnegryType::NonElectric,
    ));
}

#[verifier::rlimit(50)]
proof fn lemma_plate_types_of_Trailer_Electric_in_order()
    ensures
        spec_plate_types(VehicleType::Trailer, EnegryType::Electric) == plate_types_in_order(
            VehicleType::Trailer,
            EnegryType::Electric,
        ),
{
    reveal_with_fuel(Seq::<_>::filter, 25);
    assert(spec_plate_types(VehicleType::Trailer, EnegryType::Electric) =~= plate_types_in_order(
        VehicleType::Trailer,
        EnegryType::Electric,
    ));
}

/// Law: the list of the kinds of plate offered for a kind of vehicle and a kind of
/// energy is every kind classified under both, in declaration order, which is the order
/// of the site's directory.
pub proof fn lemma_plate_types_listed_in_order(vehicle_type: VehicleType, energy_type: EnegryType)
    ensures
        spec_plate_types(vehicle_type, energy_type) == plate_types_in_order(vehicle_type, energy_type),
{
    match (vehicle_type, energy_type) {
        (VehicleType::Car, EnegryType::NonElectric) => lemma_plate_types_of_Car_NonElectric_in_order(),
        (VehicleType::Car, EnegryType::Electric) => lemma_plate_types_of_Car_Electric_in_order(),
        (VehicleType::Motorcycle, EnegryType::NonElectric) => lemma_plate_types_of_Motorcycle_NonElectric_in_order(),
        (VehicleType::Motorcycle, EnegryType::Electric) => lemma_plate_types_of_Motorcycle_Electric_in_order(),
        (VehicleType::Trailer, EnegryType::NonElectric) => lemma_plate_types_of_Trailer_NonElectric_in_order(),
        (VehicleType::Trailer, EnegryType::Electric) => lemma_plate_types_of_Trailer_Electric_in_order(),
    }
}

} // verus!
