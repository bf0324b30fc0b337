use vstd::prelude::*;
use crate::game_state::{ResourceType, ServiceType, Tech, ZoneType};

verus! {

/// The decimal digit character for `d < 10`.
pub open spec fn digit_char(d: nat) -> char {
    if d == 0 { '0' }
    else if d == 1 { '1' }
    else if d == 2 { '2' }
    else if d == 3 { '3' }
    else if d == 4 { '4' }
    else if d == 5 { '5' }
    else if d == 6 { '6' }
    else if d == 7 { '7' }
    else if d == 8 { '8' }
    else { '9' }
}

/// The decimal notation of `n`, without leading zeros.
pub open spec fn decimal(n: nat) -> Seq<char>
    decreases n,
{
    if n < 10 {
        seq![digit_char(n)]
    } else {
        decimal(n / 10).push(digit_char(n % 10))
    }
}

/// Distinct digits have distinct characters.
pub proof fn lemma_digit_char_injective(a: nat, b: nat)
    requires
        a < 10,
        b < 10,
        digit_char(a) == digit_char(b),
    ensures
        a == b,
{
}

/// Decimal notations are never empty, and have one digit exactly below ten.
pub proof fn lemma_decimal_len(n: nat)
    ensures
        decimal(n).len() >= 1,
        (decimal(n).len() == 1) <==> n < 10,
    decreases n,
{
    if n >= 10 {
        lemma_decimal_len(n / 10);
    }
}

/// Distinct numbers have distinct decimal notations.
pub proof fn lemma_decimal_injective(a: nat, b: nat)
    requires
        decimal(a) == decimal(b),
    ensures
        a == b,
    decreases a,
{
    lemma_decimal_len(a);
    lemma_decimal_len(b);
    if a < 10 {
        assert(b < 10);
        assert(decimal(a)[0] == digit_char(a));
        assert(decimal(b)[0] == digit_char(b));
        lemma_digit_char_injective(a, b);
    } else {
        assert(b >= 10);
        let da = decimal(a);
        let db = decimal(b);
        assert(da.last() == digit_char(a % 10));
        assert(db.last() == digit_char(b % 10));
        lemma_digit_char_injective(a % 10, b % 10);
        assert(da.drop_last() =~= decimal(a / 10));
        assert(db.drop_last() =~= decimal(b / 10));
        lemma_decimal_injective(a / 10, b / 10);
    }
}

fn digit_str(d: u32) -> (r: &'static str)
    requires
        d < 10,
    ensures
        r@ == seq![digit_char(d as nat)],
{
    proof {
        reveal_strlit("0");
        reveal_strlit("1");
        reveal_strlit("2");
        reveal_strlit("3");
        reveal_strlit("4");
        reveal_strlit("5");
        reveal_strlit("6");
        reveal_strlit("7");
        reveal_strlit("8");
        reveal_strlit("9");
    }
    if d == 0 { "0" }
    else if d == 1 { "1" }
    else if d == 2 { "2" }
    else if d == 3 { "3" }
    else if d == 4 { "4" }
    else if d == 5 { "5" }
    else if d == 6 { "6" }
    else if d == 7 { "7" }
    else if d == 8 { "8" }
    else { "9" }
}

/// Writes `n` in decimal.
pub fn decimal_string(n: u32) -> (r: String)
    ensures
        r@ == decimal(n as nat),
    decreases n,
{
    if n < 10 {
        String::from_str(digit_str(n))
    } else {
        let mut s = decimal_string(n / 10);
        s.append(digit_str(n % 10));
        s
    }
}

/// The name under which a tech is shown.
pub open spec fn tech_label(t: Tech) -> Seq<char> {
    match t {
        Tech::BasicConstructionProtocols => "BasicConstructionProtocols"@,
        Tech::EfficientExtraction => "EfficientExtraction"@,
        Tech::AdvancedFabrication => "AdvancedFabrication"@,
        Tech::IndustrialProcessing => "IndustrialProcessing"@,
        Tech::ZoningOrdinances => "ZoningOrdinances"@,
        Tech::ArcologyConstruction => "ArcologyConstruction"@,
    }
}

/// Writes the name of a tech.
pub fn tech_name(t: Tech) -> (r: &'static str)
    ensures
        r@ == tech_label(t),
{
    match t {
        Tech::BasicConstructionProtocols => "BasicConstructionProtocols",
        Tech::EfficientExtraction => "EfficientExtraction",
        Tech::AdvancedFabrication => "AdvancedFabrication",
        Tech::IndustrialProcessing => "IndustrialProcessing",
        Tech::ZoningOrdinances => "ZoningOrdinances",
        Tech::ArcologyConstruction => "ArcologyConstruction",
    }
}

/// The name under which a service type is shown.
pub open spec fn service_type_label(s: ServiceType) -> Seq<char> {
    match s {
        ServiceType::Wellness => "Wellness"@,
        ServiceType::Security => "Security"@,
        ServiceType::Education => "Education"@,
        ServiceType::Recreation => "Recreation"@,
        ServiceType::Spiritual => "Spiritual"@,
    }
}

/// Writes the name of a service type.
pub fn service_type_name(s: ServiceType) -> (r: &'static str)
    ensures
        r@ == service_type_label(s),
{
    match s {
        ServiceType::Wellness => "Wellness",
        ServiceType::Security => "Security",
        ServiceType::Education => "Education",
        ServiceType::Recreation => "Recreation",
        ServiceType::Spiritual => "Spiritual",
    }
}

/// The name under which a zone type is shown.
pub open spec fn zone_type_label(z: ZoneType) -> Seq<char> {
    match z {
        ZoneType::Commercial => "Commercial"@,
        ZoneType::LightIndustry => "LightIndustry"@,
    }
}

/// Writes the name of a zone type.
pub fn zone_type_name(z: ZoneType) -> (r: &'static str)
    ensures
        r@ == zone_type_label(z),
{
    match z {
        ZoneType::Commercial => "Commercial",
        ZoneType::LightIndustry => "LightIndustry",
    }
}

/// The name under which a resource is shown.
pub open spec fn resource_label(r: ResourceType) -> Seq<char> {
    match r {
        ResourceType::FerrocreteOre => "FerrocreteOre"@,
        ResourceType::NutrientPaste => "NutrientPaste"@,
        ResourceType::CuprumDeposits => "CuprumDeposits"@,
        ResourceType::Power => "Power"@,
        ResourceType::ManufacturedGoods => "ManufacturedGoods"@,
        ResourceType::AdvancedComponents => "AdvancedComponents"@,
        ResourceType::RefinedXylos => "RefinedXylos"@,
        ResourceType::ProcessedQuantium => "ProcessedQuantium"@,
        ResourceType::RawXylos => "RawXylos"@,
        ResourceType::RawQuantium => "RawQuantium"@,
    }
}

/// Writes the name of a resource.
pub fn resource_name(r: ResourceType) -> (s: &'static str)
    ensures
        s@ == resource_label(r),
{
    match r {
        ResourceType::FerrocreteOre => "FerrocreteOre",
        ResourceType::NutrientPaste => "NutrientPaste",
        ResourceType::CuprumDeposits => "CuprumDeposits",
        ResourceType::Power => "Power",
        ResourceType::ManufacturedGoods => "ManufacturedGoods",
        ResourceType::AdvancedComponents => "AdvancedComponents",
        ResourceType::RefinedXylos => "RefinedXylos",
        ResourceType::ProcessedQuantium => "ProcessedQuantium",
        ResourceType::RawXylos => "RawXylos",
        ResourceType::RawQuantium => "RawQuantium",
    }
}

/// A quantity given in thousandths, written with one decimal place,
/// rounded half up: 2500 is "2.5", 5000 is "5.0".
pub open spec fn tenths_text(milli: nat) -> Seq<char> {
    let t = (milli + 50) / 100;
    decimal(t / 10) + "."@ + decimal(t % 10)
}

/// Writes a quantity given in thousandths with one decimal place.
pub fn tenths_string(milli: u32) -> (r: String)
    ensures
        r@ == tenths_text(milli as nat),
{
    let t: u32 = milli / 100 + if milli % 100 >= 50 { 1 } else { 0 };
    proof {
        assert(t == (milli + 50) / 100) by (nonlinear_arith)
            requires
                t == milli / 100 + if milli % 100 >= 50 { 1int } else { 0int },
        {
        }
    }
    let mut s = decimal_string(t / 10);
    s.append(".");
    let frac = decimal_string(t % 10);
    s.append(frac.as_str());
    s
}

/// Concatenation of three pieces of text.
pub open spec fn join3(a: Seq<char>, b: Seq<char>, c: Seq<char>) -> Seq<char> {
    a + b + c
}

/// `a + b + c` as a new string.
pub fn concat3(a: &str, b: &str, c: &str) -> (r: String)
    ensures
        r@ == join3(a@, b@, c@),
{
    let mut s = String::from_str(a);
    s.append(b);
    s.append(c);
    s
}

/// `a + b + c + d + e` as a new string.
pub fn concat5(a: &str, b: &str, c: &str, d: &str, e: &str) -> (r: String)
    ensures
        r@ == a@ + b@ + c@ + d@ + e@,
{
    let mut s = String::from_str(a);
    s.append(b);
    s.append(c);
    s.append(d);
    s.append(e);
    s
}

} // verus!
