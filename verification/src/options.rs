//! The options of a license plate query: plate style, vehicle and energy
//! kinds, plate kinds, regional offices, stations and pick-up windows, with
//! the codes the query form expects and their display names.

use vstd::prelude::*;

verus! {

/// 車牌樣式: the style of the plate.
#[derive(Debug, Copy, Clone, PartialEq, Eq, Hash, Structural)]
pub enum PlateVer {
    /// 原型式車牌
    Old,
    /// 新式車牌
    New,
}

impl PlateVer {
    /// The value the query form sends for this plate style.
    pub open spec fn code(self) -> Seq<char> {
        match self {
            PlateVer::Old => "1"@,
            PlateVer::New => "2"@,
        }
    }

    /// The display name of this plate style.
    pub open spec fn name(self) -> Seq<char> {
        match self {
            PlateVer::Old => "原型式車牌"@,
            PlateVer::New => "新式車牌"@,
        }
    }

    /// The value the query form sends for this plate style.
    pub fn as_str(&self) -> (s: &str)
        ensures
            s@ == self.code(),
    {
        match self {
            PlateVer::Old => "1",
            PlateVer::New => "2",
        }
    }

    /// The display name of this plate style.
    pub fn as_name(&self) -> (s: &str)
        ensures
            s@ == self.name(),
    {
        match self {
            PlateVer::Old => "原型式車牌",
            PlateVer::New => "新式車牌",
        }
    }

    /// Every plate style, in declaration order.
    pub open spec fn spec_all() -> Seq<PlateVer> {
        seq![
            PlateVer::Old,
            PlateVer::New,
        ]
    }

    /// Every plate style, in declaration order.
    pub fn all() -> (v: Vec<PlateVer>)
        ensures
            v@ == PlateVer::spec_all(),
    {
        vec![
            PlateVer::Old,
            PlateVer::New,
        ]
    }

}

/// 車種別: the kind of vehicle.
#[derive(Debug, Copy, Clone, PartialEq, Eq, Hash, Structural)]
pub enum VehicleType {
    /// 汽車
    Car,
    /// 機車
    Motorcycle,
    /// 拖車
    Trailer,
}

impl VehicleType {
    /// The code of this kind of vehicle.
    pub open spec fn code(self) -> Seq<char> {
        match self {
            VehicleType::Car => "C"@,
            VehicleType::Motorcycle => "M"@,
            VehicleType::Trailer => "T"@,
        }
    }

    /// The display name of this kind of vehicle.
    pub open spec fn name(self) -> Seq<char> {
        match self {
            VehicleType::Car => "汽車"@,
            VehicleType::Motorcycle => "機車"@,
            VehicleType::Trailer => "拖車"@,
        }
    }

    /// The code of this kind of vehicle.
    pub fn as_str(&self) -> (s: &str)
        ensures
            s@ == self.code(),
    {
        match self {
            VehicleType::Car => "C",
            VehicleType::Motorcycle => "M",
            VehicleType::Trailer => "T",
        }
    }

    /// The display name of this kind of vehicle.
    pub fn as_name(&self) -> (s: &str)
        ensures
            s@ == self.name(),
    {
        match self {
            VehicleType::Car => "汽車",
            VehicleType::Motorcycle => "機車",
            VehicleType::Trailer => "拖車",
        }
    }

    /// Every kind of vehicle, in declaration order.
    pub open spec fn spec_all() -> Seq<VehicleType> {
        seq![
            VehicleType::Car,
            VehicleType::Motorcycle,
            VehicleType::Trailer,
        ]
    }

    /// Every kind of vehicle, in declaration order.
    pub fn all() -> (v: Vec<VehicleType>)
        ensures
            v@ == VehicleType::spec_all(),
    {
        vec![
            VehicleType::Car,
            VehicleType::Motorcycle,
            VehicleType::Trailer,
        ]
    }

}

/// 管轄監理單位: the regional office a station belongs to.
#[derive(Debug, Copy, Clone, PartialEq, Eq, Hash, Structural)]
pub enum Region {
    /// 臺北市
    Taipei,
    /// 高雄市
    Kaohsiung,
    /// 臺北區
    TaipeiDistrict,
    /// 新竹區
    HsinchuDistrict,
    /// 臺中區
    TaichungDistrict,
    /// 嘉義區
    ChiayiDistrict,
    /// 高雄區
    KaohsiungDistrict,
}

impl Region {
    /// The value the query form sends for this regional office.
    pub open spec fn code(self) -> Seq<char> {
        match self {
            Region::Taipei => "2"@,
            Region::Kaohsiung => "3"@,
            Region::TaipeiDistrict => "4"@,
            Region::HsinchuDistrict => "5"@,
            Region::TaichungDistrict => "6"@,
            Region::ChiayiDistrict => "7"@,
            Region::KaohsiungDistrict => "8"@,
        }
    }

    /// The display name of this regional office.
    pub open spec fn name(self) -> Seq<char> {
        match self {
            Region::Taipei => "臺北市"@,
            Region::Kaohsiung => "高雄市"@,
            Region::TaipeiDistrict => "臺北區"@,
            Region::HsinchuDistrict => "新竹區"@,
            Region::TaichungDistrict => "臺中區"@,
            Region::ChiayiDistrict => "嘉義區"@,
            Region::KaohsiungDistrict => "高雄區"@,
        }
    }

    /// The value the query form sends for this regional office.
    pub fn as_str(&self) -> (s: &str)
        ensures
            s@ == self.code(),
    {
        match self {
            Region::Taipei => "2",
            Region::Kaohsiung => "3",
            Region::TaipeiDistrict => "4",
            Region::HsinchuDistrict => "5",
            Region::TaichungDistrict => "6",
            Region::ChiayiDistrict => "7",
            Region::KaohsiungDistrict => "8",
        }
    }

    /// The display name of this regional office.
    pub fn as_name(&self) -> (s: &str)
        ensures
            s@ == self.name(),
    {
        match self {
            Region::Taipei => "臺北市",
            Region::Kaohsiung => "高雄市",
            Region::TaipeiDistrict => "臺北區",
            Region::HsinchuDistrict => "新竹區",
            Region::TaichungDistrict => "臺中區",
            Region::ChiayiDistrict => "嘉義區",
            Region::KaohsiungDistrict => "高雄區",
        }
    }

    /// Every regional office, in declaration order.
    pub open spec fn spec_all() -> Seq<Region> {
        seq![
            Region::Taipei,
            Region::Kaohsiung,
            Region::TaipeiDistrict,
            Region::HsinchuDistrict,
            Region::TaichungDistrict,
            Region::ChiayiDistrict,
            Region::KaohsiungDistrict,
        ]
    }

    /// Every regional office, in declaration order.
    pub fn all() -> (v: Vec<Region>)
        ensures
            v@ == Region::spec_all(),
    {
        vec![
            Region::Taipei,
            Region::Kaohsiung,
            Region::TaipeiDistrict,
            Region::HsinchuDistrict,
            Region::TaichungDistrict,
            Region::ChiayiDistrict,
            Region::KaohsiungDistrict,
        ]
    }

}

/// 能源別: the kind of energy a vehicle runs on.
#[derive(Debug, Copy, Clone, PartialEq, Eq, Hash, Structural)]
pub enum EnegryType {
    /// 非電能
    NonElectric,
    /// 電能
    Electric,
}

impl EnegryType {
    /// The code of this kind of energy.
    pub open spec fn code(self) -> Seq<char> {
        match self {
            EnegryType::NonElectric => "C"@,
            EnegryType::Electric => "E"@,
        }
    }

    /// The display name of this kind of energy.
    pub open spec fn name(self) -> Seq<char> {
        match self {
            EnegryType::NonElectric => "非電能"@,
            EnegryType::Electric => "電能"@,
        }
    }

    /// The code of this kind of energy.
    pub fn as_str(&self) -> (s: &str)
        ensures
            s@ == self.code(),
    {
        match self {
            EnegryType::NonElectric => "C",
            EnegryType::Electric => "E",
        }
    }

    /// The display name of this kind of energy.
    pub fn as_name(&self) -> (s: &str)
        ensures
            s@ == self.name(),
    {
        match self {
            EnegryType::NonElectric => "非電能",
            EnegryType::Electric => "電能",
        }
    }

    /// Every kind of energy, in declaration order.
    pub open spec fn spec_all() -> Seq<EnegryType> {
        seq![
            EnegryType::NonElectric,
            EnegryType::Electric,
        ]
    }

    /// Every kind of energy, in declaration order.
    pub fn all() -> (v: Vec<EnegryType>)
        ensures
            v@ == EnegryType::spec_all(),
    {
        vec![
            EnegryType::NonElectric,
            EnegryType::Electric,
        ]
    }

}

/// 車牌別: the kind of plate.
#[derive(Debug, Copy, Clone, PartialEq, Eq, Hash, Structural)]
pub enum PlateType {
    /// 自用小客貨車
    CarOwn,
    /// 租賃小客貨車
    CarRent,
    /// 營業小客車
    CarBusiness,
    /// 營業小貨車
    CarBusinessT,
    /// 自用大客車
    CarBigOwn,
    /// 自用大貨車
    CarBigRent,
    /// 營業大客車
    CarBigBusiness,
    /// 營業大貨車
    CarBigBusinessT,
    /// 營業貨櫃曳引
    CarBigBusinessContainer,
    /// 遊覽大客車
    CarTour,
    /// 電動自小客
    CarElectricOwn,
    /// 電動租賃車
    CarElectricRent,
    /// 電動小營客車
    CarElectricBusiness,
    /// 電動大營客車
    CarElectricBigBusiness,
    /// 550cc以下重機
    Motorcycle550ccBelow,
    /// 550cc以上重機
    Motorcycle550ccAbove,
    /// 普通重型機車
    MotorcycleNormalHeavy,
    /// 普通輕型機車
    MotorcycleNormalLight,
    /// 電動550cc以下重機
    MotorcycleElectric550ccBelow,
    /// 電動550cc以上重機
    MotorcycleElectric550ccAbove,
    /// 電動普通重型機車
    MotorcycleElectricNormalHeavy,
    /// 電動普通輕型機車
    MotorcycleElectricNormalLight,
    /// 自用拖車
    TrailerOwn,
    /// 營業拖車
    TrailerBusiness,
}

/// The plate kinds offered for a kind of vehicle and a kind of energy, in the order the
/// query site lists them.
pub open spec fn spec_plate_types(vehicle_type: VehicleType, energy_type: EnegryType) -> Seq<PlateType> {
    match (vehicle_type, energy_type) {
        (VehicleType::Car, EnegryType::NonElectric) => seq![PlateType::CarOwn, PlateType::CarRent, PlateType::CarBusiness, PlateType::CarBusinessT, PlateType::CarBigOwn, PlateType::CarBigRent, PlateType::CarBigBusiness, PlateType::CarBigBusinessT, PlateType::CarBigBusinessContainer, PlateType::CarTour],
        (VehicleType::Car, EnegryType::Electric) => seq![PlateType::CarElectricOwn, PlateType::CarElectricRent, PlateType::CarElectricBusiness, PlateType::CarElectricBigBusiness],
        (VehicleType::Motorcycle, EnegryType::NonElectric) => seq![PlateType::Motorcycle550ccBelow, PlateType::Motorcycle550ccAbove, PlateType::MotorcycleNormalHeavy, PlateType::MotorcycleNormalLight],
        (VehicleType::Motorcycle, EnegryType::Electric) => seq![PlateType::MotorcycleElectric550ccBelow, PlateType::MotorcycleElectric550ccAbove, PlateType::MotorcycleElectricNormalHeavy, PlateType::MotorcycleElectricNormalLight],
        (VehicleType::Trailer, EnegryType::NonElectric) => seq![PlateType::TrailerOwn, PlateType::TrailerBusiness],
        (VehicleType::Trailer, EnegryType::Electric) => seq![],
    }
}

/// Get plate type by vehicle type and energy type.
pub fn get_plate_type(vehicle_type: VehicleType, energy_type: EnegryType) -> (v: Vec<PlateType>)
    ensures
        v@ == spec_plate_types(vehicle_type, energy_type),
{
    match vehicle_type {
        VehicleType::Car => match energy_type {
            EnegryType::NonElectric => vec![PlateType::CarOwn, PlateType::CarRent, PlateType::CarBusiness, PlateType::CarBusinessT, PlateType::CarBigOwn, PlateType::CarBigRent, PlateType::CarBigBusiness, PlateType::CarBigBusinessT, PlateType::CarBigBusinessContainer, PlateType::CarTour],
            EnegryType::Electric => vec![PlateType::CarElectricOwn, PlateType::CarElectricRent, PlateType::CarElectricBusiness, PlateType::CarElectricBigBusiness],
        },
        VehicleType::Motorcycle => match energy_type {
            EnegryType::NonElectric => vec![PlateType::Motorcycle550ccBelow, PlateType::Motorcycle550ccAbove, PlateType::MotorcycleNormalHeavy, PlateType::MotorcycleNormalLight],
            EnegryType::Electric => vec![PlateType::MotorcycleElectric550ccBelow, PlateType::MotorcycleElectric550ccAbove, PlateType::MotorcycleElectricNormalHeavy, PlateType::MotorcycleElectricNormalLight],
        },
        VehicleType::Trailer => match energy_type {
            EnegryType::NonElectric => vec![PlateType::TrailerOwn, PlateType::TrailerBusiness],
            EnegryType::Electric => vec![],
        },
    }
}

impl PlateType {
    /// The value the query form sends for this kind of plate.
    pub open spec fn code(self) -> Seq<char> {
        match self {
            PlateType::CarOwn => "1"@,
            PlateType::CarRent => "2"@,
            PlateType::CarBusiness => "3"@,
            PlateType::CarBusinessT => "4"@,
            PlateType::CarBigOwn => "5"@,
            PlateType::CarBigRent => "6"@,
            PlateType::CarBigBusiness => "7"@,
            PlateType::CarBigBusinessT => "8"@,
            PlateType::CarBigBusinessContainer => "9"@,
            PlateType::CarTour => "a"@,
            PlateType::CarElectricOwn => "g"@,
            PlateType::CarElectricRent => "h"@,
            PlateType::CarElectricBusiness => "i"@,
            PlateType::CarElectricBigBusiness => "j"@,
            PlateType::Motorcycle550ccBelow => "F"@,
            PlateType::Motorcycle550ccAbove => "G"@,
            PlateType::MotorcycleNormalHeavy => "H"@,
            PlateType::MotorcycleNormalLight => "L"@,
            PlateType::MotorcycleElectric550ccBelow => "N"@,
            PlateType::MotorcycleElectric550ccAbove => "O"@,
            PlateType::MotorcycleElectricNormalHeavy => "P"@,
            PlateType::MotorcycleElectricNormalLight => "Q"@,
            PlateType::TrailerOwn => "t"@,
            PlateType::TrailerBusiness => "u"@,
        }
    }

    /// The display name of this kind of plate.
    pub open spec fn name(self) -> Seq<char> {
        match self {
            PlateType::CarOwn => "自用小客貨車"@,
            PlateType::CarRent => "租賃小客貨車"@,
            PlateType::CarBusiness => "營業小客車"@,
            PlateType::CarBusinessT => "營業小貨車"@,
            PlateType::CarBigOwn => "自用大客車"@,
            PlateType::CarBigRent => "自用大貨車"@,
            PlateType::CarBigBusiness => "營業大客車"@,
            PlateType::CarBigBusinessT => "營業大貨車"@,
            PlateType::CarBigBusinessContainer => "營業貨櫃曳引"@,
            PlateType::CarTour => "遊覽大客車"@,
            PlateType::CarElectricOwn => "電動自小客"@,
            PlateType::CarElectricRent => "電動租賃車"@,
            PlateType::CarElectricBusiness => "電動小營客車"@,
            PlateType::CarElectricBigBusiness => "電動大營客車"@,
            PlateType::Motorcycle550ccBelow => "550cc以下重機"@,
            PlateType::Motorcycle550ccAbove => "550cc以上重機"@,
            PlateType::MotorcycleNormalHeavy => "普通重型機車"@,
            PlateType::MotorcycleNormalLight => "普通輕型機車"@,
            PlateType::MotorcycleElectric550ccBelow => "電動550cc以下重機"@,
            PlateType::MotorcycleElectric550ccAbove => "電動550cc以上重機"@,
            PlateType::MotorcycleElectricNormalHeavy => "電動普通重型機車"@,
            PlateType::MotorcycleElectricNormalLight => "電動普通輕型機車"@,
            PlateType::TrailerOwn => "自用拖車"@,
            PlateType::TrailerBusiness => "營業拖車"@,
        }
    }

    /// The kind of energy this kind of plate is for.
    pub open spec fn spec_energy_type(self) -> EnegryType {
        match self {
            PlateType::CarOwn => EnegryType::NonElectric,
            PlateType::CarRent => EnegryType::NonElectric,
            PlateType::CarBusiness => EnegryType::NonElectric,
            PlateType::CarBusinessT => EnegryType::NonElectric,
            PlateType::CarBigOwn => EnegryType::NonElectric,
            PlateType::CarBigRent => EnegryType::NonElectric,
            PlateType::CarBigBusiness => EnegryType::NonElectric,
            PlateType::CarBigBusinessT => EnegryType::NonElectric,
            PlateType::CarBigBusinessContainer => EnegryType::NonElectric,
            PlateType::CarTour => EnegryType::NonElectric,
            PlateType::CarElectricOwn => EnegryType::Electric,
            PlateType::CarElectricRent => EnegryType::Electric,
            PlateType::CarElectricBusiness => EnegryType::Electric,
            PlateType::CarElectricBigBusiness => EnegryType::Electric,
            PlateType::Motorcycle550ccBelow => EnegryType::NonElectric,
            PlateType::Motorcycle550ccAbove => EnegryType::NonElectric,
            PlateType::MotorcycleNormalHeavy => EnegryType::NonElectric,
            PlateType::MotorcycleNormalLight => EnegryType::NonElectric,
            PlateType::MotorcycleElectric550ccBelow => EnegryType::Electric,
            PlateType::MotorcycleElectric550ccAbove => EnegryType::Electric,
            PlateType::MotorcycleElectricNormalHeavy => EnegryType::Electric,
            PlateType::MotorcycleElectricNormalLight => EnegryType::Electric,
            PlateType::TrailerOwn => EnegryType::NonElectric,
            PlateType::TrailerBusiness => EnegryType::NonElectric,
        }
    }

    /// The kind of vehicle this kind of plate is for.
    pub open spec fn spec_vehicle_type(self) -> VehicleType {
        match self {
            PlateType::CarOwn => VehicleType::Car,
            PlateType::CarRent => VehicleType::Car,
            PlateType::CarBusiness => VehicleType::Car,
            PlateType::CarBusinessT => VehicleType::Car,
            PlateType::CarBigOwn => VehicleType::Car,
            PlateType::CarBigRent => VehicleType::Car,
            PlateType::CarBigBusiness => VehicleType::Car,
            PlateType::CarBigBusinessT => VehicleType::Car,
            PlateType::CarBigBusinessContainer => VehicleType::Car,
            PlateType::CarTour => VehicleType::Car,
            PlateType::CarElectricOwn => VehicleType::Car,
            PlateType::CarElectricRent => VehicleType::Car,
            PlateType::CarElectricBusiness => VehicleType::Car,
            PlateType::CarElectricBigBusiness => VehicleType::Car,
            PlateType::Motorcycle550ccBelow => VehicleType::Motorcycle,
            PlateType::Motorcycle550ccAbove => VehicleType::Motorcycle,
            PlateType::MotorcycleNormalHeavy => VehicleType::Motorcycle,
            PlateType::MotorcycleNormalLight => VehicleType::Motorcycle,
            PlateType::MotorcycleElectric550ccBelow => VehicleType::Motorcycle,
            PlateType::MotorcycleElectric550ccAbove => VehicleType::Motorcycle,
            PlateType::MotorcycleElectricNormalHeavy => VehicleType::Motorcycle,
            PlateType::MotorcycleElectricNormalLight => VehicleType::Motorcycle,
            PlateType::TrailerOwn => VehicleType::Trailer,
            PlateType::TrailerBusiness => VehicleType::Trailer,
        }
    }

    /// The value the query form sends for this kind of plate.
    pub fn as_str(&self) -> (s: &str)
        ensures
            s@ == self.code(),
    {
        match self {
            PlateType::CarOwn => "1",
            PlateType::CarRent => "2",
            PlateType::CarBusiness => "3",
            PlateType::CarBusinessT => "4",
            PlateType::CarBigOwn => "5",
            PlateType::CarBigRent => "6",
            PlateType::CarBigBusiness => "7",
            PlateType::CarBigBusinessT => "8",
            PlateType::CarBigBusinessContainer => "9",
            PlateType::CarTour => "a",
            PlateType::CarElectricOwn => "g",
            PlateType::CarElectricRent => "h",
            PlateType::CarElectricBusiness => "i",
            PlateType::CarElectricBigBusiness => "j",
            PlateType::Motorcycle550ccBelow => "F",
            PlateType::Motorcycle550ccAbove => "G",
            PlateType::MotorcycleNormalHeavy => "H",
            PlateType::MotorcycleNormalLight => "L",
            PlateType::MotorcycleElectric550ccBelow => "N",
            PlateType::MotorcycleElectric550ccAbove => "O",
            PlateType::MotorcycleElectricNormalHeavy => "P",
            PlateType::MotorcycleElectricNormalLight => "Q",
            PlateType::TrailerOwn => "t",
            PlateType::TrailerBusiness => "u",
        }
    }

    /// The display name of this kind of plate.
    pub fn as_name(&self) -> (s: &str)
        ensures
            s@ == self.name(),
    {
        match self {
            PlateType::CarOwn => "自用小客貨車",
            PlateType::CarRent => "租賃小客貨車",
            PlateType::CarBusiness => "營業小客車",
            PlateType::CarBusinessT => "營業小貨車",
            PlateType::CarBigOwn => "自用大客車",
            PlateType::CarBigRent => "自用大貨車",
            PlateType::CarBigBusiness => "營業大客車",
            PlateType::CarBigBusinessT => "營業大貨車",
            PlateType::CarBigBusinessContainer => "營業貨櫃曳引",
            PlateType::CarTour => "遊覽大客車",
            PlateType::CarElectricOwn => "電動自小客",
            PlateType::CarElectricRent => "電動租賃車",
            PlateType::CarElectricBusiness => "電動小營客車",
            PlateType::CarElectricBigBusiness => "電動大營客車",
            PlateType::Motorcycle550ccBelow => "550cc以下重機",
            PlateType::Motorcycle550ccAbove => "550cc以上重機",
            PlateType::MotorcycleNormalHeavy => "普通重型機車",
            PlateType::MotorcycleNormalLight => "普通輕型機車",
            PlateType::MotorcycleElectric550ccBelow => "電動550cc以下重機",
            PlateType::MotorcycleElectric550ccAbove => "電動550cc以上重機",
            PlateType::MotorcycleElectricNormalHeavy => "電動普通重型機車",
            PlateType::MotorcycleElectricNormalLight => "電動普通輕型機車",
            PlateType::TrailerOwn => "自用拖車",
            PlateType::TrailerBusiness => "營業拖車",
        }
    }

    /// The kind of energy this kind of plate is for.
    pub fn energy_type(&self) -> (r: EnegryType)
        ensures
            r == self.spec_energy_type(),
    {
        match self {
            PlateType::CarOwn => EnegryType::NonElectric,
            PlateType::CarRent => EnegryType::NonElectric,
            PlateType::CarBusiness => EnegryType::NonElectric,
            PlateType::CarBusinessT => EnegryType::NonElectric,
            PlateType::CarBigOwn => EnegryType::NonElectric,
            PlateType::CarBigRent => EnegryType::NonElectric,
            PlateType::CarBigBusiness => EnegryType::NonElectric,
            PlateType::CarBigBusinessT => EnegryType::NonElectric,
            PlateType::CarBigBusinessContainer => EnegryType::NonElectric,
            PlateType::CarTour => EnegryType::NonElectric,
            PlateType::CarElectricOwn => EnegryType::Electric,
            PlateType::CarElectricRent => EnegryType::Electric,
            PlateType::CarElectricBusiness => EnegryType::Electric,
            PlateType::CarElectricBigBusiness => EnegryType::Electric,
            PlateType::Motorcycle550ccBelow => EnegryType::NonElectric,
            PlateType::Motorcycle550ccAbove => EnegryType::NonElectric,
            PlateType::MotorcycleNormalHeavy => EnegryType::NonElectric,
            PlateType::MotorcycleNormalLight => EnegryType::NonElectric,
            PlateType::MotorcycleElectric550ccBelow => EnegryType::Electric,
            PlateType::MotorcycleElectric550ccAbove => EnegryType::Electric,
            PlateType::MotorcycleElectricNormalHeavy => EnegryType::Electric,
            PlateType::MotorcycleElectricNormalLight => EnegryType::Electric,
            PlateType::TrailerOwn => EnegryType::NonElectric,
            PlateType::TrailerBusiness => EnegryType::NonElectric,
        }
    }

    /// The kind of vehicle this kind of plate is for.
    pub fn vehicle_type(&self) -> (r: VehicleType)
        ensures
            r == self.spec_vehicle_type(),
    {
        match self {
            PlateType::CarOwn => VehicleType::Car,
            PlateType::CarRent => VehicleType::Car,
            PlateType::CarBusiness => VehicleType::Car,
            PlateType::CarBusinessT => VehicleType::Car,
            PlateType::CarBigOwn => VehicleType::Car,
            PlateType::CarBigRent => VehicleType::Car,
            PlateType::CarBigBusiness => VehicleType::Car,
            PlateType::CarBigBusinessT => VehicleType::Car,
            PlateType::CarBigBusinessContainer => VehicleType::Car,
            PlateType::CarTour => VehicleType::Car,
            PlateType::CarElectricOwn => VehicleType::Car,
            PlateType::CarElectricRent => VehicleType::Car,
            PlateType::CarElectricBusiness => VehicleType::Car,
            PlateType::CarElectricBigBusiness => VehicleType::Car,
            PlateType::Motorcycle550ccBelow => VehicleType::Motorcycle,
            PlateType::Motorcycle550ccAbove => VehicleType::Motorcycle,
            PlateType::MotorcycleNormalHeavy => VehicleType::Motorcycle,
            PlateType::MotorcycleNormalLight => VehicleType::Motorcycle,
            PlateType::MotorcycleElectric550ccBelow => VehicleType::Motorcycle,
            PlateType::MotorcycleElectric550ccAbove => VehicleType::Motorcycle,
            PlateType::MotorcycleElectricNormalHeavy => VehicleType::Motorcycle,
            PlateType::MotorcycleElectricNormalLight => VehicleType::Motorcycle,
            PlateType::TrailerOwn => VehicleType::Trailer,
            PlateType::TrailerBusiness => VehicleType::Trailer,
        }
    }

    /// Every kind of plate, in declaration order.
    pub open spec fn spec_all() -> Seq<PlateType> {
        seq![
            PlateType::CarOwn,
            PlateType::CarRent,
            PlateType::CarBusiness,
            PlateType::CarBusinessT,
            PlateType::CarBigOwn,
            PlateType::CarBigRent,
            PlateType::CarBigBusiness,
            PlateType::CarBigBusinessT,
            PlateType::CarBigBusinessContainer,
            PlateType::CarTour,
            PlateType::CarElectricOwn,
            PlateType::CarElectricRent,
            PlateType::CarElectricBusiness,
            PlateType::CarElectricBigBusiness,
            PlateType::Motorcycle550ccBelow,
            PlateType::Motorcycle550ccAbove,
            PlateType::MotorcycleNormalHeavy,
            PlateType::MotorcycleNormalLight,
            PlateType::MotorcycleElectric550ccBelow,
            PlateType::MotorcycleElectric550ccAbove,
            PlateType::MotorcycleElectricNormalHeavy,
            PlateType::MotorcycleElectricNormalLight,
            PlateType::TrailerOwn,
            PlateType::TrailerBusiness,
        ]
    }

    /// Every kind of plate, in declaration order.
    pub fn all() -> (v: Vec<PlateType>)
        ensures
            v@ == PlateType::spec_all(),
    {
        vec![
            PlateType::CarOwn,
            PlateType::CarRent,
            PlateType::CarBusiness,
            PlateType::CarBusinessT,
            PlateType::CarBigOwn,
            PlateType::CarBigRent,
            PlateType::CarBigBusiness,
            PlateType::CarBigBusinessT,
            PlateType::CarBigBusinessContainer,
            PlateType::CarTour,
            PlateType::CarElectricOwn,
            PlateType::CarElectricRent,
            PlateType::CarElectricBusiness,
            PlateType::CarElectricBigBusiness,
            PlateType::Motorcycle550ccBelow,
            PlateType::Motorcycle550ccAbove,
            PlateType::MotorcycleNormalHeavy,
            PlateType::MotorcycleNormalLight,
            PlateType::MotorcycleElectric550ccBelow,
            PlateType::MotorcycleElectric550ccAbove,
            PlateType::MotorcycleElectricNormalHeavy,
            PlateType::MotorcycleElectricNormalLight,
            PlateType::TrailerOwn,
            PlateType::TrailerBusiness,
        ]
    }

}

/// 監理站: a motor vehicle station.
#[derive(Debug, Copy, Clone, PartialEq, Eq, Hash, Structural)]
pub enum Station {
    /// 臺北市區監理所
    TaipeiCity,
    /// 士林監理站
    Shilin,
    /// 基隆監理站
    Keelung,
    /// 金門監理站
    Kinmen,
    /// 連江監理站
    Lienchiang,
    /// 高雄市區監理所
    KaohsiungCity,
    /// 苓雅監理站
    Lingya,
    /// 旗山監理站
    Qishan,
    /// 臺北區監理所
    TaipeiDistrict,
    /// 板橋監理站
    Banqiao,
    /// 宜蘭監理站
    Yilan,
    /// 花蓮監理站
    Hualien,
    /// 玉里監理分站
    Yuli,
    /// 蘆洲監理站
    Luzhou,
    /// 新竹區監理所
    HsinchuDistrict,
    /// 新竹市監理站
    HsinchuCity,
    /// 桃園監理站
    Taoyuan,
    /// 中壢監理站
    Zhongli,
    /// 苗栗監理站
    Miaoli,
    /// 臺中區監理所
    TaichungDistrict,
    /// 臺中市監理站
    TaichungCity,
    /// 埔里監理分站
    Puli,
    /// 豐原監理站
    Fengyuan,
    /// 彰化監理站
    Changhua,
    /// 南投監理站
    Nantou,
    /// 嘉義區監理所
    ChiayiDistrict,
    /// 東勢監理分站
    Dongshi,
    /// 雲林監理站
    Yunlin,
    /// 新營監理站
    Xinying,
    /// 臺南監理站
    Tainan,
    /// 麻豆監理站
    Madou,
    /// 嘉義市監理站
    ChiayiCity,
    /// 高雄區監理所
    KaohsiungDistrict,
    /// 臺東監理站
    Taitung,
    /// 屏東監理站
    Pingtung,
    /// 恆春監理分站
    Hengchun,
    /// 澎湖監理站
    Penghu,
}

/// The stations under a regional office, in the order the query site lists them.
pub open spec fn spec_stations(region: Region) -> Seq<Station> {
    match region {
        Region::Taipei => seq![Station::TaipeiCity, Station::Shilin, Station::Keelung, Station::Kinmen, Station::Lienchiang],
        Region::Kaohsiung => seq![Station::KaohsiungCity, Station::Lingya, Station::Qishan],
        Region::TaipeiDistrict => seq![Station::TaipeiDistrict, Station::Banqiao, Station::Yilan, Station::Hualien, Station::Yuli, Station::Luzhou],
        Region::HsinchuDistrict => seq![Station::HsinchuDistrict, Station::HsinchuCity, Station::Taoyuan, Station::Zhongli, Station::Miaoli],
        Region::TaichungDistrict => seq![Station::TaichungDistrict, Station::TaichungCity, Station::Puli, Station::Fengyuan, Station::Changhua, Station::Nantou],
        Region::ChiayiDistrict => seq![Station::ChiayiDistrict, Station::Dongshi, Station::Yunlin, Station::Xinying, Station::Tainan, Station::Madou, Station::ChiayiCity],
        Region::KaohsiungDistrict => seq![Station::KaohsiungDistrict, Station::Taitung, Station::Pingtung, Station::Hengchun, Station::Penghu],
    }
}

/// Get station by region.
pub fn get_station(region: Region) -> (v: Vec<Station>)
    ensures
        v@ == spec_stations(region),
{
    match region {
        Region::Taipei => vec![Station::TaipeiCity, Station::Shilin, Station::Keelung, Station::Kinmen, Station::Lienchiang],
        Region::Kaohsiung => vec![Station::KaohsiungCity, Station::Lingya, Station::Qishan],
        Region::TaipeiDistrict => vec![Station::TaipeiDistrict, Station::Banqiao, Station::Yilan, Station::Hualien, Station::Yuli, Station::Luzhou],
        Region::HsinchuDistrict => vec![Station::HsinchuDistrict, Station::HsinchuCity, Station::Taoyuan, Station::Zhongli, Station::Miaoli],
        Region::TaichungDistrict => vec![Station::TaichungDistrict, Station::TaichungCity, Station::Puli, Station::Fengyuan, Station::Changhua, Station::Nantou],
        Region::ChiayiDistrict => vec![Station::ChiayiDistrict, Station::Dongshi, Station::Yunlin, Station::Xinying, Station::Tainan, Station::Madou, Station::ChiayiCity],
        Region::KaohsiungDistrict => vec![Station::KaohsiungDistrict, Station::Taitung, Station::Pingtung, Station::Hengchun, Station::Penghu],
    }
}

impl Station {
    /// The value the query form sends for this station.
    pub open spec fn code(self) -> Seq<char> {
        match self {
            Station::TaipeiCity => "20"@,
            Station::Shilin => "21"@,
            Station::Keelung => "25"@,
            Station::Kinmen => "26"@,
            Station::Lienchiang => "28"@,
            Station::KaohsiungCity => "30"@,
            Station::Lingya => "31"@,
            Station::Qishan => "33"@,
            Station::TaipeiDistrict => "40"@,
            Station::Banqiao => "41"@,
            Station::Yilan => "43"@,
            Station::Hualien => "44"@,
            Station::Yuli => "45"@,
            Station::Luzhou => "46"@,
            Station::HsinchuDistrict => "50"@,
            Station::HsinchuCity => "51"@,
            Station::Taoyuan => "52"@,
            Station::Zhongli => "53"@,
            Station::Miaoli => "54"@,
            Station::TaichungDistrict => "60"@,
            Station::TaichungCity => "61"@,
            Station::Puli => "62"@,
            Station::Fengyuan => "63"@,
            Station::Changhua => "64"@,
            Station::Nantou => "65"@,
            Station::ChiayiDistrict => "70"@,
            Station::Dongshi => "71"@,
            Station::Yunlin => "72"@,
            Station::Xinying => "73"@,
            Station::Tainan => "74"@,
            Station::Madou => "75"@,
            Station::ChiayiCity => "76"@,
            Station::KaohsiungDistrict => "80"@,
            Station::Taitung => "81"@,
            Station::Pingtung => "82"@,
            Station::Hengchun => "83"@,
            Station::Penghu => "84"@,
        }
    }

    /// The display name of this station.
    pub open spec fn name(self) -> Seq<char> {
        match self {
            Station::TaipeiCity => "臺北市區監理所"@,
            Station::Shilin => "士林監理站"@,
            Station::Keelung => "基隆監理站"@,
            Station::Kinmen => "金門監理站"@,
            Station::Lienchiang => "連江監理站"@,
            Station::KaohsiungCity => "高雄市區監理所"@,
            Station::Lingya => "苓雅監理站"@,
            Station::Qishan => "旗山監理站"@,
            Station::TaipeiDistrict => "臺北區監理所"@,
            Station::Banqiao => "板橋監理站"@,
            Station::Yilan => "宜蘭監理站"@,
            Station::Hualien => "花蓮監理站"@,
            Station::Yuli => "玉里監理分站"@,
            Station::Luzhou => "蘆洲監理站"@,
            Station::HsinchuDistrict => "新竹區監理所"@,
            Station::HsinchuCity => "新竹市監理站"@,
            Station::Taoyuan => "桃園監理站"@,
            Station::Zhongli => "中壢監理站"@,
            Station::Miaoli => "苗栗監理站"@,
            Station::TaichungDistrict => "臺中區監理所"@,
            Station::TaichungCity => "臺中市監理站"@,
            Station::Puli => "埔里監理分站"@,
            Station::Fengyuan => "豐原監理站"@,
            Station::Changhua => "彰化監理站"@,
            Station::Nantou => "南投監理站"@,
            Station::ChiayiDistrict => "嘉義區監理所"@,
            Station::Dongshi => "東勢監理分站"@,
            Station::Yunlin => "雲林監理站"@,
            Station::Xinying => "新營監理站"@,
            Station::Tainan => "臺南監理站"@,
            Station::Madou => "麻豆監理站"@,
            Station::ChiayiCity => "嘉義市監理站"@,
            Station::KaohsiungDistrict => "高雄區監理所"@,
            Station::Taitung => "臺東監理站"@,
            Station::Pingtung => "屏東監理站"@,
            Station::Hengchun => "恆春監理分站"@,
            Station::Penghu => "澎湖監理站"@,
        }
    }

    /// The regional office that lists this station.
    pub open spec fn spec_region(self) -> Region {
        match self {
            Station::TaipeiCity => Region::Taipei,
            Station::Shilin => Region::Taipei,
            Station::Keelung => Region::Taipei,
            Station::Kinmen => Region::Taipei,
            Station::Lienchiang => Region::Taipei,
            Station::KaohsiungCity => Region::Kaohsiung,
            Station::Lingya => Region::Kaohsiung,
            Station::Qishan => Region::Kaohsiung,
            Station::TaipeiDistrict => Region::TaipeiDistrict,
            Station::Banqiao => Region::TaipeiDistrict,
            Station::Yilan => Region::TaipeiDistrict,
            Station::Hualien => Region::TaipeiDistrict,
            Station::Yuli => Region::TaipeiDistrict,
            Station::Luzhou => Region::TaipeiDistrict,
            Station::HsinchuDistrict => Region::HsinchuDistrict,
            Station::HsinchuCity => Region::HsinchuDistrict,
            Station::Taoyuan => Region::HsinchuDistrict,
            Station::Zhongli => Region::HsinchuDistrict,
            Station::Miaoli => Region::HsinchuDistrict,
            Station::TaichungDistrict => Region::TaichungDistrict,
            Station::TaichungCity => Region::TaichungDistrict,
            Station::Puli => Region::TaichungDistrict,
            Station::Fengyuan => Region::TaichungDistrict,
            Station::Changhua => Region::TaichungDistrict,
            Station::Nantou => Region::TaichungDistrict,
            Station::ChiayiDistrict => Region::ChiayiDistrict,
            Station::Dongshi => Region::ChiayiDistrict,
            Station::Yunlin => Region::ChiayiDistrict,
            Station::Xinying => Region::ChiayiDistrict,
            Station::Tainan => Region::ChiayiDistrict,
            Station::Madou => Region::ChiayiDistrict,
            Station::ChiayiCity => Region::ChiayiDistrict,
            Station::KaohsiungDistrict => Region::KaohsiungDistrict,
            Station::Taitung => Region::KaohsiungDistrict,
            Station::Pingtung => Region::KaohsiungDistrict,
            Station::Hengchun => Region::KaohsiungDistrict,
            Station::Penghu => Region::KaohsiungDistrict,
        }
    }

    /// The value the query form sends for this station.
    pub fn as_str(&self) -> (s: &str)
        ensures
            s@ == self.code(),
    {
        match self {
            Station::TaipeiCity => "20",
            Station::Shilin => "21",
            Station::Keelung => "25",
            Station::Kinmen => "26",
            Station::Lienchiang => "28",
            Station::KaohsiungCity => "30",
            Station::Lingya => "31",
            Station::Qishan => "33",
            Station::TaipeiDistrict => "40",
            Station::Banqiao => "41",
            Station::Yilan => "43",
            Station::Hualien => "44",
            Station::Yuli => "45",
            Station::Luzhou => "46",
            Station::HsinchuDistrict => "50",
            Station::HsinchuCity => "51",
            Station::Taoyuan => "52",
            Station::Zhongli => "53",
            Station::Miaoli => "54",
            Station::TaichungDistrict => "60",
            Station::TaichungCity => "61",
            Station::Puli => "62",
            Station::Fengyuan => "63",
            Station::Changhua => "64",
            Station::Nantou => "65",
            Station::ChiayiDistrict => "70",
            Station::Dongshi => "71",
            Station::Yunlin => "72",
            Station::Xinying => "73",
            Station::Tainan => "74",
            Station::Madou => "75",
            Station::ChiayiCity => "76",
            Station::KaohsiungDistrict => "80",
            Station::Taitung => "81",
            Station::Pingtung => "82",
            Station::Hengchun => "83",
            Station::Penghu => "84",
        }
    }

    /// The display name of this station.
    pub fn as_name(&self) -> (s: &str)
        ensures
            s@ == self.name(),
    {
        match self {
            Station::TaipeiCity => "臺北市區監理所",
            Station::Shilin => "士林監理站",
            Station::Keelung => "基隆監理站",
            Station::Kinmen => "金門監理站",
            Station::Lienchiang => "連江監理站",
            Station::KaohsiungCity => "高雄市區監理所",
            Station::Lingya => "苓雅監理站",
            Station::Qishan => "旗山監理站",
            Station::TaipeiDistrict => "臺北區監理所",
            Station::Banqiao => "板橋監理站",
            Station::Yilan => "宜蘭監理站",
            Station::Hualien => "花蓮監理站",
            Station::Yuli => "玉里監理分站",
            Station::Luzhou => "蘆洲監理站",
            Station::HsinchuDistrict => "新竹區監理所",
            Station::HsinchuCity => "新竹市監理站",
            Station::Taoyuan => "桃園監理站",
            Station::Zhongli => "中壢監理站",
            Station::Miaoli => "苗栗監理站",
            Station::TaichungDistrict => "臺中區監理所",
            Station::TaichungCity => "臺中市監理站",
            Station::Puli => "埔里監理分站",
            Station::Fengyuan => "豐原監理站",
            Station::Changhua => "彰化監理站",
            Station::Nantou => "南投監理站",
            Station::ChiayiDistrict => "嘉義區監理所",
            Station::Dongshi => "東勢監理分站",
            Station::Yunlin => "雲林監理站",
            Station::Xinying => "新營監理站",
            Station::Tainan => "臺南監理站",
            Station::Madou => "麻豆監理站",
            Station::ChiayiCity => "嘉義市監理站",
            Station::KaohsiungDistrict => "高雄區監理所",
            Station::Taitung => "臺東監理站",
            Station::Pingtung => "屏東監理站",
            Station::Hengchun => "恆春監理分站",
            Station::Penghu => "澎湖監理站",
        }
    }

    /// The regional office that lists this station.
    pub fn region(&self) -> (r: Region)
        ensures
            r == self.spec_region(),
    {
        match self {
            Station::TaipeiCity => Region::Taipei,
            Station::Shilin => Region::Taipei,
            Station::Keelung => Region::Taipei,
            Station::Kinmen => Region::Taipei,
            Station::Lienchiang => Region::Taipei,
            Station::KaohsiungCity => Region::Kaohsiung,
            Station::Lingya => Region::Kaohsiung,
            Station::Qishan => Region::Kaohsiung,
            Station::TaipeiDistrict => Region::TaipeiDistrict,
            Station::Banqiao => Region::TaipeiDistrict,
            Station::Yilan => Region::TaipeiDistrict,
            Station::Hualien => Region::TaipeiDistrict,
            Station::Yuli => Region::TaipeiDistrict,
            Station::Luzhou => Region::TaipeiDistrict,
            Station::HsinchuDistrict => Region::HsinchuDistrict,
            Station::HsinchuCity => Region::HsinchuDistrict,
            Station::Taoyuan => Region::HsinchuDistrict,
            Station::Zhongli => Region::HsinchuDistrict,
            Station::Miaoli => Region::HsinchuDistrict,
            Station::TaichungDistrict => Region::TaichungDistrict,
            Station::TaichungCity => Region::TaichungDistrict,
            Station::Puli => Region::TaichungDistrict,
            Station::Fengyuan => Region::TaichungDistrict,
            Station::Changhua => Region::TaichungDistrict,
            Station::Nantou => Region::TaichungDistrict,
            Station::ChiayiDistrict => Region::ChiayiDistrict,
            Station::Dongshi => Region::ChiayiDistrict,
            Station::Yunlin => Region::ChiayiDistrict,
            Station::Xinying => Region::ChiayiDistrict,
            Station::Tainan => Region::ChiayiDistrict,
            Station::Madou => Region::ChiayiDistrict,
            Station::ChiayiCity => Region::ChiayiDistrict,
            Station::KaohsiungDistrict => Region::KaohsiungDistrict,
            Station::Taitung => Region::KaohsiungDistrict,
            Station::Pingtung => Region::KaohsiungDistrict,
            Station::Hengchun => Region::KaohsiungDistrict,
            Station::Penghu => Region::KaohsiungDistrict,
        }
    }

    /// Every station, in declaration order.
    pub open spec fn spec_all() -> Seq<Station> {
        seq![
            Station::TaipeiCity,
            Station::Shilin,
            Station::Keelung,
            Station::Kinmen,
            Station::Lienchiang,
            Station::KaohsiungCity,
            Station::Lingya,
            Station::Qishan,
            Station::TaipeiDistrict,
            Station::Banqiao,
            Station::Yilan,
            Station::Hualien,
            Station::Yuli,
            Station::Luzhou,
            Station::HsinchuDistrict,
            Station::HsinchuCity,
            Station::Taoyuan,
            Station::Zhongli,
            Station::Miaoli,
            Station::TaichungDistrict,
            Station::TaichungCity,
            Station::Puli,
            Station::Fengyuan,
            Station::Changhua,
            Station::Nantou,
            Station::ChiayiDistrict,
            Station::Dongshi,
            Station::Yunlin,
            Station::Xinying,
            Station::Tainan,
            Station::Madou,
            Station::ChiayiCity,
            Station::KaohsiungDistrict,
            Station::Taitung,
            Station::Pingtung,
            Station::Hengchun,
            Station::Penghu,
        ]
    }

    /// Every station, in declaration order.
    pub fn all() -> (v: Vec<Station>)
        ensures
            v@ == Station::spec_all(),
    {
        vec![
            Station::TaipeiCity,
            Station::Shilin,
            Station::Keelung,
            Station::Kinmen,
            Station::Lienchiang,
            Station::KaohsiungCity,
            Station::Lingya,
            Station::Qishan,
            Station::TaipeiDistrict,
            Station::Banqiao,
            Station::Yilan,
            Station::Hualien,
            Station::Yuli,
            Station::Luzhou,
            Station::HsinchuDistrict,
            Station::HsinchuCity,
            Station::Taoyuan,
            Station::Zhongli,
            Station::Miaoli,
            Station::TaichungDistrict,
            Station::TaichungCity,
            Station::Puli,
            Station::Fengyuan,
            Station::Changhua,
            Station::Nantou,
            Station::ChiayiDistrict,
            Station::Dongshi,
            Station::Yunlin,
            Station::Xinying,
            Station::Tainan,
            Station::Madou,
            Station::ChiayiCity,
            Station::KaohsiungDistrict,
            Station::Taitung,
            Station::Pingtung,
            Station::Hengchun,
            Station::Penghu,
        ]
    }

}

/// 領牌地點(窗口地點): the window where the plate is picked up.
#[derive(Debug, Copy, Clone, PartialEq, Eq, Hash, Structural)]
pub enum WindowNo {
    One,
}

impl WindowNo {
    /// The value the query form sends for this window.
    pub open spec fn code(self) -> Seq<char> {
        match self {
            WindowNo::One => "01"@,
        }
    }

    /// The value the query form sends for this window.
    pub fn as_str(&self) -> (s: &str)
        ensures
            s@ == self.code(),
    {
        match self {
            WindowNo::One => "01",
        }
    }

    /// Every window, in declaration order.
    pub open spec fn spec_all() -> Seq<WindowNo> {
        seq![
            WindowNo::One,
        ]
    }

    /// Every window, in declaration order.
    pub fn all() -> (v: Vec<WindowNo>)
        ensures
            v@ == WindowNo::spec_all(),
    {
        vec![
            WindowNo::One,
        ]
    }

}
/// Law: a kind of plate is offered for a kind of vehicle and a kind of energy exactly
/// when it is classified under both, and no kind of plate is offered twice.
pub proof fn lemma_plate_types_follow_classification(
    vehicle_type: VehicleType,
    energy_type: EnegryType,
    plate_type: PlateType,
)
    ensures
        spec_plate_types(vehicle_type, energy_type).contains(plate_type) <==> (
        plate_type.spec_vehicle_type() == vehicle_type && plate_type.spec_energy_type()
            == energy_type),
        spec_plate_types(vehicle_type, energy_type).no_duplicates(),
{
    let offered = spec_plate_types(vehicle_type, energy_type);
    if plate_type.spec_vehicle_type() == vehicle_type && plate_type.spec_energy_type() == energy_type {
        match plate_type {
            PlateType::CarOwn => assert(offered[0] == plate_type),
            PlateType::CarRent => assert(offered[1] == plate_type),
            PlateType::CarBusiness => assert(offered[2] == plate_type),
            PlateType::CarBusinessT => assert(offered[3] == plate_type),
            PlateType::CarBigOwn => assert(offered[4] == plate_type),
            PlateType::CarBigRent => assert(offered[5] == plate_type),
            PlateType::CarBigBusiness => assert(offered[6] == plate_type),
            PlateType::CarBigBusinessT => assert(offered[7] == plate_type),
            PlateType::CarBigBusinessContainer => assert(offered[8] == plate_type),
            PlateType::CarTour => assert(offered[9] == plate_type),
            PlateType::CarElectricOwn => assert(offered[0] == plate_type),
            PlateType::CarElectricRent => assert(offered[1] == plate_type),
            PlateType::CarElectricBusiness => assert(offered[2] == plate_type),
            PlateType::CarElectricBigBusiness => assert(offered[3] == plate_type),
            PlateType::Motorcycle550ccBelow => assert(offered[0] == plate_type),
            PlateType::Motorcycle550ccAbove => assert(offered[1] == plate_type),
            PlateType::MotorcycleNormalHeavy => assert(offered[2] == plate_type),
            PlateType::MotorcycleNormalLight => assert(offered[3] == plate_type),
            PlateType::MotorcycleElectric550ccBelow => assert(offered[0] == plate_type),
            PlateType::MotorcycleElectric550ccAbove => assert(offered[1] == plate_type),
            PlateType::MotorcycleElectricNormalHeavy => assert(offered[2] == plate_type),
            PlateType::MotorcycleElectricNormalLight => assert(offered[3] == plate_type),
            PlateType::TrailerOwn => assert(offered[0] == plate_type),
            PlateType::TrailerBusiness => assert(offered[1] == plate_type),
        }
    }
}

/// Law: a station appears in the list of a regional office exactly when that office is
/// its region, and no station appears twice in one list.
pub proof fn lemma_stations_follow_region(region: Region, station: Station)
    ensures
        spec_stations(region).contains(station) <==> station.spec_region() == region,
        spec_stations(region).no_duplicates(),
{
    let listed = spec_stations(region);
    if station.spec_region() == region {
        match station {
            Station::TaipeiCity => assert(listed[0] == station),
            Station::Shilin => assert(listed[1] == station),
            Station::Keelung => assert(listed[2] == station),
            Station::Kinmen => assert(listed[3] == station),
            Station::Lienchiang => assert(listed[4] == station),
            Station::KaohsiungCity => assert(listed[0] == station),
            Station::Lingya => assert(listed[1] == station),
            Station::Qishan => assert(listed[2] == station),
            Station::TaipeiDistrict => assert(listed[0] == station),
            Station::Banqiao => assert(listed[1] == station),
            Station::Yilan => assert(listed[2] == station),
            Station::Hualien => assert(listed[3] == station),
            Station::Yuli => assert(listed[4] == station),
            Station::Luzhou => assert(listed[5] == station),
            Station::HsinchuDistrict => assert(listed[0] == station),
            Station::HsinchuCity => assert(listed[1] == station),
            Station::Taoyuan => assert(listed[2] == station),
            Station::Zhongli => assert(listed[3] == station),
            Station::Miaoli => assert(listed[4] == station),
            Station::TaichungDistrict => assert(listed[0] == station),
            Station::TaichungCity => assert(listed[1] == station),
            Station::Puli => assert(listed[2] == station),
            Station::Fengyuan => assert(listed[3] == station),
            Station::Changhua => assert(listed[4] == station),
            Station::Nantou => assert(listed[5] == station),
            Station::ChiayiDistrict => assert(listed[0] == station),
            Station::Dongshi => assert(listed[1] == station),
            Station::Yunlin => assert(listed[2] == station),
            Station::Xinying => assert(listed[3] == station),
            Station::Tainan => assert(listed[4] == station),
            Station::Madou => assert(listed[5] == station),
            Station::ChiayiCity => assert(listed[6] == station),
            Station::KaohsiungDistrict => assert(listed[0] == station),
            Station::Taitung => assert(listed[1] == station),
            Station::Pingtung => assert(listed[2] == station),
            Station::Hengchun => assert(listed[3] == station),
            Station::Penghu => assert(listed[4] == station),
        }
    }
}

/// Law: the list of every station holds each station exactly once.
pub proof fn lemma_all_stations_once(station: Station)
    ensures
        Station::spec_all().contains(station),
        Station::spec_all().no_duplicates(),
{
    let all = Station::spec_all();
    match station {
        Station::TaipeiCity => assert(all[0] == station),
        Station::Shilin => assert(all[1] == station),
        Station::Keelung => assert(all[2] == station),
        Station::Kinmen => assert(all[3] == station),
        Station::Lienchiang => assert(all[4] == station),
        Station::KaohsiungCity => assert(all[5] == station),
        Station::Lingya => assert(all[6] == station),
        Station::Qishan => assert(all[7] == station),
        Station::TaipeiDistrict => assert(all[8] == station),
        Station::Banqiao => assert(all[9] == station),
        Station::Yilan => assert(all[10] == station),
        Station::Hualien => assert(all[11] == station),
        Station::Yuli => assert(all[12] == station),
        Station::Luzhou => assert(all[13] == station),
        Station::HsinchuDistrict => assert(all[14] == station),
        Station::HsinchuCity => assert(all[15] == station),
        Station::Taoyuan => assert(all[16] == station),
        Station::Zhongli => assert(all[17] == station),
        Station::Miaoli => assert(all[18] == station),
        Station::TaichungDistrict => assert(all[19] == station),
        Station::TaichungCity => assert(all[20] == station),
        Station::Puli => assert(all[21] == station),
        Station::Fengyuan => assert(all[22] == station),
        Station::Changhua => assert(all[23] == station),
        Station::Nantou => assert(all[24] == station),
        Station::ChiayiDistrict => assert(all[25] == station),
        Station::Dongshi => assert(all[26] == station),
        Station::Yunlin => assert(all[27] == station),
        Station::Xinying => assert(all[28] == station),
        Station::Tainan => assert(all[29] == station),
        Station::Madou => assert(all[30] == station),
        Station::ChiayiCity => assert(all[31] == station),
        Station::KaohsiungDistrict => assert(all[32] == station),
        Station::Taitung => assert(all[33] == station),
        Station::Pingtung => assert(all[34] == station),
        Station::Hengchun => assert(all[35] == station),
        Station::Penghu => assert(all[36] == station),
    }
}

/// Law: the list of every regional office holds each office exactly once.
pub proof fn lemma_all_regions_once(region: Region)
    ensures
        Region::spec_all().contains(region),
        Region::spec_all().no_duplicates(),
{
    let all = Region::spec_all();
    match region {
        Region::Taipei => assert(all[0] == region),
        Region::Kaohsiung => assert(all[1] == region),
        Region::TaipeiDistrict => assert(all[2] == region),
        Region::HsinchuDistrict => assert(all[3] == region),
        Region::TaichungDistrict => assert(all[4] == region),
        Region::ChiayiDistrict => assert(all[5] == region),
        Region::KaohsiungDistrict => assert(all[6] == region),
    }
}

/// Law: the list of every window holds each window exactly once.
pub proof fn lemma_all_windows_once(window_no: WindowNo)
    ensures
        WindowNo::spec_all().contains(window_no),
        WindowNo::spec_all().no_duplicates(),
{
    assert(WindowNo::spec_all()[0] == window_no);
}

/// Law: a station's form code begins with the form code of its regional office.
pub proof fn lemma_station_code_extends_region_code(station: Station)
    ensures
        station.spec_region().code().is_prefix_of(station.code()),
{
    match station {
        Station::TaipeiCity => {
            reveal_strlit("20");
            reveal_strlit("2");
        },
        Station::Shilin => {
            reveal_strlit("21");
            reveal_strlit("2");
        },
        Station::Keelung => {
            reveal_strlit("25");
            reveal_strlit("2");
        },
        Station::Kinmen => {
            reveal_strlit("26");
            reveal_strlit("2");
        },
        Station::Lienchiang => {
            reveal_strlit("28");
            reveal_strlit("2");
        },
        Station::KaohsiungCity => {
            reveal_strlit("30");
            reveal_strlit("3");
        },
        Station::Lingya => {
            reveal_strlit("31");
            reveal_strlit("3");
        },
        Station::Qishan => {
            reveal_strlit("33");
            reveal_strlit("3");
        },
        Station::TaipeiDistrict => {
            reveal_strlit("40");
            reveal_strlit("4");
        },
        Station::Banqiao => {
            reveal_strlit("41");
            reveal_strlit("4");
        },
        Station::Yilan => {
            reveal_strlit("43");
            reveal_strlit("4");
        },
        Station::Hualien => {
            reveal_strlit("44");
            reveal_strlit("4");
        },
        Station::Yuli => {
            reveal_strlit("45");
            reveal_strlit("4");
        },
        Station::Luzhou => {
            reveal_strlit("46");
            reveal_strlit("4");
        },
        Station::HsinchuDistrict => {
            reveal_strlit("50");
            reveal_strlit("5");
        },
        Station::HsinchuCity => {
            reveal_strlit("51");
            reveal_strlit("5");
        },
        Station::Taoyuan => {
            reveal_strlit("52");
            reveal_strlit("5");
        },
        Station::Zhongli => {
            reveal_strlit("53");
            reveal_strlit("5");
        },
        Station::Miaoli => {
            reveal_strlit("54");
            reveal_strlit("5");
        },
        Station::TaichungDistrict => {
            reveal_strlit("60");
            reveal_strlit("6");
        },
        Station::TaichungCity => {
            reveal_strlit("61");
            reveal_strlit("6");
        },
        Station::Puli => {
            reveal_strlit("62");
            reveal_strlit("6");
        },
        Station::Fengyuan => {
            reveal_strlit("63");
            reveal_strlit("6");
        },
        Station::Changhua => {
            reveal_strlit("64");
            reveal_strlit("6");
        },
        Station::Nantou => {
            reveal_strlit("65");
            reveal_strlit("6");
        },
        Station::ChiayiDistrict => {
            reveal_strlit("70");
            reveal_strlit("7");
        },
        Station::Dongshi => {
            reveal_strlit("71");
            reveal_strlit("7");
        },
        Station::Yunlin => {
            reveal_strlit("72");
            reveal_strlit("7");
        },
        Station::Xinying => {
            reveal_strlit("73");
            reveal_strlit("7");
        },
        Station::Tainan => {
            reveal_strlit("74");
            reveal_strlit("7");
        },
        Station::Madou => {
            reveal_strlit("75");
            reveal_strlit("7");
        },
        Station::ChiayiCity => {
            reveal_strlit("76");
            reveal_strlit("7");
        },
        Station::KaohsiungDistrict => {
            reveal_strlit("80");
            reveal_strlit("8");
        },
        Station::Taitung => {
            reveal_strlit("81");
            reveal_strlit("8");
        },
        Station::Pingtung => {
            reveal_strlit("82");
            reveal_strlit("8");
        },
        Station::Hengchun => {
            reveal_strlit("83");
            reveal_strlit("8");
        },
        Station::Penghu => {
            reveal_strlit("84");
            reveal_strlit("8");
        },
    }
}

/// Law: the list of every plate style holds each exactly once.
pub proof fn lemma_all_plate_vers_once(plate_ver: PlateVer)
    ensures
        PlateVer::spec_all().contains(plate_ver),
        PlateVer::spec_all().no_duplicates(),
{
    let all = PlateVer::spec_all();
    match plate_ver {
        PlateVer::Old => assert(all[0] == plate_ver),
        PlateVer::New => assert(all[1] == plate_ver),
    }
}

/// Law: the list of every kind of vehicle holds each exactly once.
pub proof fn lemma_all_vehicle_types_once(vehicle_type: VehicleType)
    ensures
        VehicleType::spec_all().contains(vehicle_type),
        VehicleType::spec_all().no_duplicates(),
{
    let all = VehicleType::spec_all();
    match vehicle_type {
        VehicleType::Car => assert(all[0] == vehicle_type),
        VehicleType::Motorcycle => assert(all[1] == vehicle_type),
        VehicleType::Trailer => assert(all[2] == vehicle_type),
    }
}

/// Law: the list of every kind of energy holds each exactly once.
pub proof fn lemma_all_energy_types_once(energy_type: EnegryType)
    ensures
        EnegryType::spec_all().contains(energy_type),
        EnegryType::spec_all().no_duplicates(),
{
    let all = EnegryType::spec_all();
    match energy_type {
        EnegryType::NonElectric => assert(all[0] == energy_type),
        EnegryType::Electric => assert(all[1] == energy_type),
    }
}

/// Law: the list of every kind of plate holds each exactly once.
pub proof fn lemma_all_plate_types_once(plate_type: PlateType)
    ensures
        PlateType::spec_all().contains(plate_type),
        PlateType::spec_all().no_duplicates(),
{
    let all = PlateType::spec_all();
    match plate_type {
        PlateType::CarOwn => assert(all[0] == plate_type),
        PlateType::CarRent => assert(all[1] == plate_type),
        PlateType::CarBusiness => assert(all[2] == plate_type),
        PlateType::CarBusinessT => assert(all[3] == plate_type),
        PlateType::CarBigOwn => assert(all[4] == plate_type),
        PlateType::CarBigRent => assert(all[5] == plate_type),
        PlateType::CarBigBusiness => assert(all[6] == plate_type),
        PlateType::CarBigBusinessT => assert(all[7] == plate_type),
        PlateType::CarBigBusinessContainer => assert(all[8] == plate_type),
        PlateType::CarTour => assert(all[9] == plate_type),
        PlateType::CarElectricOwn => assert(all[10] == plate_type),
        PlateType::CarElectricRent => assert(all[11] == plate_type),
        PlateType::CarElectricBusiness => assert(all[12] == plate_type),
        PlateType::CarElectricBigBusiness => assert(all[13] == plate_type),
        PlateType::Motorcycle550ccBelow => assert(all[14] == plate_type),
        PlateType::Motorcycle550ccAbove => assert(all[15] == plate_type),
        PlateType::MotorcycleNormalHeavy => assert(all[16] == plate_type),
        PlateType::MotorcycleNormalLight => assert(all[17] == plate_type),
        PlateType::MotorcycleElectric550ccBelow => assert(all[18] == plate_type),
        PlateType::MotorcycleElectric550ccAbove => assert(all[19] == plate_type),
        PlateType::MotorcycleElectricNormalHeavy => assert(all[20] == plate_type),
        PlateType::MotorcycleElectricNormalLight => assert(all[21] == plate_type),
        PlateType::TrailerOwn => assert(all[22] == plate_type),
        PlateType::TrailerBusiness => assert(all[23] == plate_type),
    }
}

/// Reads a form code back into the option that sends it.
spec fn plate_ver_from_code(c: Seq<char>) -> PlateVer {
    if c[0] == '1' {
        PlateVer::Old
    } else {
        PlateVer::New
    }
}

/// Law: different plate styles send different form codes.
pub proof fn lemma_plate_ver_codes_distinct(a: PlateVer, b: PlateVer)
    ensures
        a.code() == b.code() ==> a == b,
{
    match a {
        PlateVer::Old => {
            reveal_strlit("1");
            assert(plate_ver_from_code(a.code()) == a);
        },
        PlateVer::New => {
            reveal_strlit("2");
            assert(plate_ver_from_code(a.code()) == a);
        },
    }
    match b {
        PlateVer::Old => {
            reveal_strlit("1");
            assert(plate_ver_from_code(b.code()) == b);
        },
        PlateVer::New => {
            reveal_strlit("2");
            assert(plate_ver_from_code(b.code()) == b);
        },
    }
}

/// Reads a form code back into the option that sends it.
spec fn region_from_code(c: Seq<char>) -> Region {
    if c[0] == '2' {
        Region::Taipei
    } else if c[0] == '3' {
        Region::Kaohsiung
    } else if c[0] == '4' {
        Region::TaipeiDistrict
    } else if c[0] == '5' {
        Region::HsinchuDistrict
    } else if c[0] == '6' {
        Region::TaichungDistrict
    } else if c[0] == '7' {
        Region::ChiayiDistrict
    } else {
        Region::KaohsiungDistrict
    }
}

/// Law: different regional offices send different form codes.
pub proof fn lemma_region_codes_distinct(a: Region, b: Region)
    ensures
        a.code() == b.code() ==> a == b,
{
    match a {
        Region::Taipei => {
            reveal_strlit("2");
            assert(region_from_code(a.code()) == a);
        },
        Region::Kaohsiung => {
            reveal_strlit("3");
            assert(region_from_code(a.code()) == a);
        },
        Region::TaipeiDistrict => {
            reveal_strlit("4");
            assert(region_from_code(a.code()) == a);
        },
        Region::HsinchuDistrict => {
            reveal_strlit("5");
            assert(region_from_code(a.code()) == a);
        },
        Region::TaichungDistrict => {
            reveal_strlit("6");
            assert(region_from_code(a.code()) == a);
        },
        Region::ChiayiDistrict => {
            reveal_strlit("7");
            assert(region_from_code(a.code()) == a);
        },
        Region::KaohsiungDistrict => {
            reveal_strlit("8");
            assert(region_from_code(a.code()) == a);
        },
    }
    match b {
        Region::Taipei => {
            reveal_strlit("2");
            assert(region_from_code(b.code()) == b);
        },
        Region::Kaohsiung => {
            reveal_strlit("3");
            assert(region_from_code(b.code()) == b);
        },
        Region::TaipeiDistrict => {
            reveal_strlit("4");
            assert(region_from_code(b.code()) == b);
        },
        Region::HsinchuDistrict => {
            reveal_strlit("5");
            assert(region_from_code(b.code()) == b);
        },
        Region::TaichungDistrict => {
            reveal_strlit("6");
            assert(region_from_code(b.code()) == b);
        },
        Region::ChiayiDistrict => {
            reveal_strlit("7");
            assert(region_from_code(b.code()) == b);
        },
        Region::KaohsiungDistrict => {
            reveal_strlit("8");
            assert(region_from_code(b.code()) == b);
        },
    }
}

/// Reads a form code back into the option that sends it.
spec fn plate_type_from_code(c: Seq<char>) -> PlateType {
    if c[0] == '1' {
        PlateType::CarOwn
    } else if c[0] == '2' {
        PlateType::CarRent
    } else if c[0] == '3' {
        PlateType::CarBusiness
    } else if c[0] == '4' {
        PlateType::CarBusinessT
    } else if c[0] == '5' {
        PlateType::CarBigOwn
    } else if c[0] == '6' {
        PlateType::CarBigRent
    } else if c[0] == '7' {
        PlateType::CarBigBusiness
    } else if c[0] == '8' {
        PlateType::CarBigBusinessT
    } else if c[0] == '9' {
        PlateType::CarBigBusinessContainer
    } else if c[0] == 'a' {
        PlateType::CarTour
    } else if c[0] == 'g' {
        PlateType::CarElectricOwn
    } else if c[0] == 'h' {
        PlateType::CarElectricRent
    } else if c[0] == 'i' {
        PlateType::CarElectricBusiness
    } else if c[0] == 'j' {
        PlateType::CarElectricBigBusiness
    } else if c[0] == 'F' {
        PlateType::Motorcycle550ccBelow
    } else if c[0] == 'G' {
        PlateType::Motorcycle550ccAbove
    } else if c[0] == 'H' {
        PlateType::MotorcycleNormalHeavy
    } else if c[0] == 'L' {
        PlateType::MotorcycleNormalLight
    } else if c[0] == 'N' {
        PlateType::MotorcycleElectric550ccBelow
    } else if c[0] == 'O' {
        PlateType::MotorcycleElectric550ccAbove
    } else if c[0] == 'P' {
        PlateType::MotorcycleElectricNormalHeavy
    } else if c[0] == 'Q' {
        PlateType::MotorcycleElectricNormalLight
    } else if c[0] == 't' {
        PlateType::TrailerOwn
    } else {
        PlateType::TrailerBusiness
    }
}

/// Law: different kinds of plate send different form codes.
pub proof fn lemma_plate_type_codes_distinct(a: PlateType, b: PlateType)
    ensures
        a.code() == b.code() ==> a == b,
{
    match a {
        PlateType::CarOwn => {
            reveal_strlit("1");
            assert(plate_type_from_code(a.code()) == a);
        },
        PlateType::CarRent => {
            reveal_strlit("2");
            assert(plate_type_from_code(a.code()) == a);
        },
        PlateType::CarBusiness => {
            reveal_strlit("3");
            assert(plate_type_from_code(a.code()) == a);
        },
        PlateType::CarBusinessT => {
            reveal_strlit("4");
            assert(plate_type_from_code(a.code()) == a);
        },
        PlateType::CarBigOwn => {
            reveal_strlit("5");
            assert(plate_type_from_code(a.code()) == a);
        },
        PlateType::CarBigRent => {
            reveal_strlit("6");
            assert(plate_type_from_code(a.code()) == a);
        },
        PlateType::CarBigBusiness => {
            reveal_strlit("7");
            assert(plate_type_from_code(a.code()) == a);
        },
        PlateType::CarBigBusinessT => {
            reveal_strlit("8");
            assert(plate_type_from_code(a.code()) == a);
        },
        PlateType::CarBigBusinessContainer => {
            reveal_strlit("9");
            assert(plate_type_from_code(a.code()) == a);
        },
        PlateType::CarTour => {
            reveal_strlit("a");
            assert(plate_type_from_code(a.code()) == a);
        },
        PlateType::CarElectricOwn => {
            reveal_strlit("g");
            assert(plate_type_from_code(a.code()) == a);
        },
        PlateType::CarElectricRent => {
            reveal_strlit("h");
            assert(plate_type_from_code(a.code()) == a);
        },
        PlateType::CarElectricBusiness => {
            reveal_strlit("i");
            assert(plate_type_from_code(a.code()) == a);
        },
        PlateType::CarElectricBigBusiness => {
            reveal_strlit("j");
            assert(plate_type_from_code(a.code()) == a);
        },
        PlateType::Motorcycle550ccBelow => {
            reveal_strlit("F");
            assert(plate_type_from_code(a.code()) == a);
        },
        PlateType::Motorcycle550ccAbove => {
            reveal_strlit("G");
            assert(plate_type_from_code(a.code()) == a);
        },
        PlateType::MotorcycleNormalHeavy => {
            reveal_strlit("H");
            assert(plate_type_from_code(a.code()) == a);
        },
        PlateType::MotorcycleNormalLight => {
            reveal_strlit("L");
            assert(plate_type_from_code(a.code()) == a);
        },
        PlateType::MotorcycleElectric550ccBelow => {
            reveal_strlit("N");
            assert(plate_type_from_code(a.code()) == a);
        },
        PlateType::MotorcycleElectric550ccAbove => {
            reveal_strlit("O");
            assert(plate_type_from_code(a.code()) == a);
        },
        PlateType::MotorcycleElectricNormalHeavy => {
            reveal_strlit("P");
            assert(plate_type_from_code(a.code()) == a);
        },
        PlateType::MotorcycleElectricNormalLight => {
            reveal_strlit("Q");
            assert(plate_type_from_code(a.code()) == a);
        },
        PlateType::TrailerOwn => {
            reveal_strlit("t");
            assert(plate_type_from_code(a.code()) == a);
        },
        PlateType::TrailerBusiness => {
            reveal_strlit("u");
            assert(plate_type_from_code(a.code()) == a);
        },
    }
    match b {
        PlateType::CarOwn => {
            reveal_strlit("1");
            assert(plate_type_from_code(b.code()) == b);
        },
        PlateType::CarRent => {
            reveal_strlit("2");
            assert(plate_type_from_code(b.code()) == b);
        },
        PlateType::CarBusiness => {
            reveal_strlit("3");
            assert(plate_type_from_code(b.code()) == b);
        },
        PlateType::CarBusinessT => {
            reveal_strlit("4");
            assert(plate_type_from_code(b.code()) == b);
        },
        PlateType::CarBigOwn => {
            reveal_strlit("5");
            assert(plate_type_from_code(b.code()) == b);
        },
        PlateType::CarBigRent => {
            reveal_strlit("6");
            assert(plate_type_from_code(b.code()) == b);
        },
        PlateType::CarBigBusiness => {
            reveal_strlit("7");
            assert(plate_type_from_code(b.code()) == b);
        },
        PlateType::CarBigBusinessT => {
            reveal_strlit("8");
            assert(plate_type_from_code(b.code()) == b);
        },
        PlateType::CarBigBusinessContainer => {
            reveal_strlit("9");
            assert(plate_type_from_code(b.code()) == b);
        },
        PlateType::CarTour => {
            reveal_strlit("a");
            assert(plate_type_from_code(b.code()) == b);
        },
        PlateType::CarElectricOwn => {
            reveal_strlit("g");
            assert(plate_type_from_code(b.code()) == b);
        },
        PlateType::CarElectricRent => {
            reveal_strlit("h");
            assert(plate_type_from_code(b.code()) == b);
        },
        PlateType::CarElectricBusiness => {
            reveal_strlit("i");
            assert(plate_type_from_code(b.code()) == b);
        },
        PlateType::CarElectricBigBusiness => {
            reveal_strlit("j");
            assert(plate_type_from_code(b.code()) == b);
        },
        PlateType::Motorcycle550ccBelow => {
            reveal_strlit("F");
            assert(plate_type_from_code(b.code()) == b);
        },
        PlateType::Motorcycle550ccAbove => {
            reveal_strlit("G");
            assert(plate_type_from_code(b.code()) == b);
        },
        PlateType::MotorcycleNormalHeavy => {
            reveal_strlit("H");
            assert(plate_type_from_code(b.code()) == b);
        },
        PlateType::MotorcycleNormalLight => {
            reveal_strlit("L");
            assert(plate_type_from_code(b.code()) == b);
        },
        PlateType::MotorcycleElectric550ccBelow => {
            reveal_strlit("N");
            assert(plate_type_from_code(b.code()) == b);
        },
        PlateType::MotorcycleElectric550ccAbove => {
            reveal_strlit("O");
            assert(plate_type_from_code(b.code()) == b);
        },
        PlateType::MotorcycleElectricNormalHeavy => {
            reveal_strlit("P");
            assert(plate_type_from_code(b.code()) == b);
        },
        PlateType::MotorcycleElectricNormalLight => {
            reveal_strlit("Q");
            assert(plate_type_from_code(b.code()) == b);
        },
        PlateType::TrailerOwn => {
            reveal_strlit("t");
            assert(plate_type_from_code(b.code()) == b);
        },
        PlateType::TrailerBusiness => {
            reveal_strlit("u");
            assert(plate_type_from_code(b.code()) == b);
        },
    }
}

/// Reads a form code back into the option that sends it.
spec fn station_from_code(c: Seq<char>) -> Station {
    if c[0] == '2' && c[1] == '0' {
        Station::TaipeiCity
    } else if c[0] == '2' && c[1] == '1' {
        Station::Shilin
    } else if c[0] == '2' && c[1] == '5' {
        Station::Keelung
    } else if c[0] == '2' && c[1] == '6' {
        Station::Kinmen
    } else if c[0] == '2' && c[1] == '8' {
        Station::Lienchiang
    } else if c[0] == '3' && c[1] == '0' {
        Station::KaohsiungCity
    } else if c[0] == '3' && c[1] == '1' {
        Station::Lingya
    } else if c[0] == '3' && c[1] == '3' {
        Station::Qishan
    } else if c[0] == '4' && c[1] == '0' {
        Station::TaipeiDistrict
    } else if c[0] == '4' && c[1] == '1' {
        Station::Banqiao
    } else if c[0] == '4' && c[1] == '3' {
        Station::Yilan
    } else if c[0] == '4' && c[1] == '4' {
        Station::Hualien
    } else if c[0] == '4' && c[1] == '5' {
        Station::Yuli
    } else if c[0] == '4' && c[1] == '6' {
        Station::Luzhou
    } else if c[0] == '5' && c[1] == '0' {
        Station::HsinchuDistrict
    } else if c[0] == '5' && c[1] == '1' {
        Station::HsinchuCity
    } else if c[0] == '5' && c[1] == '2' {
        Station::Taoyuan
    } else if c[0] == '5' && c[1] == '3' {
        Station::Zhongli
    } else if c[0] == '5' && c[1] == '4' {
        Station::Miaoli
    } else if c[0] == '6' && c[1] == '0' {
        Station::TaichungDistrict
    } else if c[0] == '6' && c[1] == '1' {
        Station::TaichungCity
    } else if c[0] == '6' && c[1] == '2' {
        Station::Puli
    } else if c[0] == '6' && c[1] == '3' {
        Station::Fengyuan
    } else if c[0] == '6' && c[1] == '4' {
        Station::Changhua
    } else if c[0] == '6' && c[1] == '5' {
        Station::Nantou
    } else if c[0] == '7' && c[1] == '0' {
        Station::ChiayiDistrict
    } else if c[0] == '7' && c[1] == '1' {
        Station::Dongshi
    } else if c[0] == '7' && c[1] == '2' {
        Station::Yunlin
    } else if c[0] == '7' && c[1] == '3' {
        Station::Xinying
    } else if c[0] == '7' && c[1] == '4' {
        Station::Tainan
    } else if c[0] == '7' && c[1] == '5' {
        Station::Madou
    } else if c[0] == '7' && c[1] == '6' {
        Station::ChiayiCity
    } else if c[0] == '8' && c[1] == '0' {
        Station::KaohsiungDistrict
    } else if c[0] == '8' && c[1] == '1' {
        Station::Taitung
    } else if c[0] == '8' && c[1] == '2' {
        Station::Pingtung
    } else if c[0] == '8' && c[1] == '3' {
        Station::Hengchun
    } else {
        Station::Penghu
    }
}

/// Law: different stations send different form codes.
pub proof fn lemma_station_codes_distinct(a: Station, b: Station)
    ensures
        a.code() == b.code() ==> a == b,
{
    match a {
        Station::TaipeiCity => {
            reveal_strlit("20");
            assert(station_from_code(a.code()) == a);
        },
        Station::Shilin => {
            reveal_strlit("21");
            assert(station_from_code(a.code()) == a);
        },
        Station::Keelung => {
            reveal_strlit("25");
            assert(station_from_code(a.code()) == a);
        },
        Station::Kinmen => {
            reveal_strlit("26");
            assert(station_from_code(a.code()) == a);
        },
        Station::Lienchiang => {
            reveal_strlit("28");
            assert(station_from_code(a.code()) == a);
        },
        Station::KaohsiungCity => {
            reveal_strlit("30");
            assert(station_from_code(a.code()) == a);
        },
        Station::Lingya => {
            reveal_strlit("31");
            assert(station_from_code(a.code()) == a);
        },
        Station::Qishan => {
            reveal_strlit("33");
            assert(station_from_code(a.code()) == a);
        },
        Station::TaipeiDistrict => {
            reveal_strlit("40");
            assert(station_from_code(a.code()) == a);
        },
        Station::Banqiao => {
            reveal_strlit("41");
            assert(station_from_code(a.code()) == a);
        },
        Station::Yilan => {
            reveal_strlit("43");
            assert(station_from_code(a.code()) == a);
        },
        Station::Hualien => {
            reveal_strlit("44");
            assert(station_from_code(a.code()) == a);
        },
        Station::Yuli => {
            reveal_strlit("45");
            assert(station_from_code(a.code()) == a);
        },
        Station::Luzhou => {
            reveal_strlit("46");
            assert(station_from_code(a.code()) == a);
        },
        Station::HsinchuDistrict => {
            reveal_strlit("50");
            assert(station_from_code(a.code()) == a);
        },
        Station::HsinchuCity => {
            reveal_strlit("51");
            assert(station_from_code(a.code()) == a);
        },
        Station::Taoyuan => {
            reveal_strlit("52");
            assert(station_from_code(a.code()) == a);
        },
        Station::Zhongli => {
            reveal_strlit("53");
            assert(station_from_code(a.code()) == a);
        },
        Station::Miaoli => {
            reveal_strlit("54");
            assert(station_from_code(a.code()) == a);
        },
        Station::TaichungDistrict => {
            reveal_strlit("60");
            assert(station_from_code(a.code()) == a);
        },
        Station::TaichungCity => {
            reveal_strlit("61");
            assert(station_from_code(a.code()) == a);
        },
        Station::Puli => {
            reveal_strlit("62");
            assert(station_from_code(a.code()) == a);
        },
        Station::Fengyuan => {
            reveal_strlit("63");
            assert(station_from_code(a.code()) == a);
        },
        Station::Changhua => {
            reveal_strlit("64");
            assert(station_from_code(a.code()) == a);
        },
        Station::Nantou => {
            reveal_strlit("65");
            assert(station_from_code(a.code()) == a);
        },
        Station::ChiayiDistrict => {
            reveal_strlit("70");
            assert(station_from_code(a.code()) == a);
        },
        Station::Dongshi => {
            reveal_strlit("71");
            assert(station_from_code(a.code()) == a);
        },
        Station::Yunlin => {
            reveal_strlit("72");
            assert(station_from_code(a.code()) == a);
        },
        Station::Xinying => {
            reveal_strlit("73");
            assert(station_from_code(a.code()) == a);
        },
        Station::Tainan => {
            reveal_strlit("74");
            assert(station_from_code(a.code()) == a);
        },
        Station::Madou => {
            reveal_strlit("75");
            assert(station_from_code(a.code()) == a);
        },
        Station::ChiayiCity => {
            reveal_strlit("76");
            assert(station_from_code(a.code()) == a);
        },
        Station::KaohsiungDistrict => {
            reveal_strlit("80");
            assert(station_from_code(a.code()) == a);
        },
        Station::Taitung => {
            reveal_strlit("81");
            assert(station_from_code(a.code()) == a);
        },
        Station::Pingtung => {
            reveal_strlit("82");
            assert(station_from_code(a.code()) == a);
        },
        Station::Hengchun => {
            reveal_strlit("83");
            assert(station_from_code(a.code()) == a);
        },
        Station::Penghu => {
            reveal_strlit("84");
            assert(station_from_code(a.code()) == a);
        },
    }
    match b {
        Station::TaipeiCity => {
            reveal_strlit("20");
            assert(station_from_code(b.code()) == b);
        },
        Station::Shilin => {
            reveal_strlit("21");
            assert(station_from_code(b.code()) == b);
        },
        Station::Keelung => {
            reveal_strlit("25");
            assert(station_from_code(b.code()) == b);
        },
        Station::Kinmen => {
            reveal_strlit("26");
            assert(station_from_code(b.code()) == b);
        },
        Station::Lienchiang => {
            reveal_strlit("28");
            assert(station_from_code(b.code()) == b);
        },
        Station::KaohsiungCity => {
            reveal_strlit("30");
            assert(station_from_code(b.code()) == b);
        },
        Station::Lingya => {
            reveal_strlit("31");
            assert(station_from_code(b.code()) == b);
        },
        Station::Qishan => {
            reveal_strlit("33");
            assert(station_from_code(b.code()) == b);
        },
        Station::TaipeiDistrict => {
            reveal_strlit("40");
            assert(station_from_code(b.code()) == b);
        },
        Station::Banqiao => {
            reveal_strlit("41");
            assert(station_from_code(b.code()) == b);
        },
        Station::Yilan => {
            reveal_strlit("43");
            assert(station_from_code(b.code()) == b);
        },
        Station::Hualien => {
            reveal_strlit("44");
            assert(station_from_code(b.code()) == b);
        },
        Station::Yuli => {
            reveal_strlit("45");
            assert(station_from_code(b.code()) == b);
        },
        Station::Luzhou => {
            reveal_strlit("46");
            assert(station_from_code(b.code()) == b);
        },
        Station::HsinchuDistrict => {
            reveal_strlit("50");
            assert(station_from_code(b.code()) == b);
        },
        Station::HsinchuCity => {
            reveal_strlit("51");
            assert(station_from_code(b.code()) == b);
        },
        Station::Taoyuan => {
            reveal_strlit("52");
            assert(station_from_code(b.code()) == b);
        },
        Station::Zhongli => {
            reveal_strlit("53");
            assert(station_from_code(b.code()) == b);
        },
        Station::Miaoli => {
            reveal_strlit("54");
            assert(station_from_code(b.code()) == b);
        },
        Station::TaichungDistrict => {
            reveal_strlit("60");
            assert(station_from_code(b.code()) == b);
        },
        Station::TaichungCity => {
            reveal_strlit("61");
            assert(station_from_code(b.code()) == b);
        },
        Station::Puli => {
            reveal_strlit("62");
            assert(station_from_code(b.code()) == b);
        },
        Station::Fengyuan => {
            reveal_strlit("63");
            assert(station_from_code(b.code()) == b);
        },
        Station::Changhua => {
            reveal_strlit("64");
            assert(station_from_code(b.code()) == b);
        },
        Station::Nantou => {
            reveal_strlit("65");
            assert(station_from_code(b.code()) == b);
        },
        Station::ChiayiDistrict => {
            reveal_strlit("70");
            assert(station_from_code(b.code()) == b);
        },
        Station::Dongshi => {
            reveal_strlit("71");
            assert(station_from_code(b.code()) == b);
        },
        Station::Yunlin => {
            reveal_strlit("72");
            assert(station_from_code(b.code()) == b);
        },
        Station::Xinying => {
            reveal_strlit("73");
            assert(station_from_code(b.code()) == b);
        },
        Station::Tainan => {
            reveal_strlit("74");
            assert(station_from_code(b.code()) == b);
        },
        Station::Madou => {
            reveal_strlit("75");
            assert(station_from_code(b.code()) == b);
        },
        Station::ChiayiCity => {
            reveal_strlit("76");
            assert(station_from_code(b.code()) == b);
        },
        Station::KaohsiungDistrict => {
            reveal_strlit("80");
            assert(station_from_code(b.code()) == b);
        },
        Station::Taitung => {
            reveal_strlit("81");
            assert(station_from_code(b.code()) == b);
        },
        Station::Pingtung => {
            reveal_strlit("82");
            assert(station_from_code(b.code()) == b);
        },
        Station::Hengchun => {
            reveal_strlit("83");
            assert(station_from_code(b.code()) == b);
        },
        Station::Penghu => {
            reveal_strlit("84");
            assert(station_from_code(b.code()) == b);
        },
    }
}

} // verus!