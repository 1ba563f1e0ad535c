//! The schema of the overview record: one entry per field, giving the
//! document key that holds it and the kind of value it is read as.
use vstd::prelude::*;

verus! {

/// How the string value of a field is read.
#[derive(Clone, Copy, Debug, PartialEq, Eq, Structural)]
pub enum FieldKind {
    /// Copied as it is.
    Text,
    /// A calendar date, `YYYY-MM-DD`.
    Date,
    /// A floating-point literal.
    Float,
    /// A signed 64-bit decimal integer.
    Signed,
    /// An unsigned 64-bit decimal integer.
    Unsigned,
    /// An unsigned 32-bit decimal integer (analyst rating counts).
    Count,
}

/// A field of the overview record. Fields whose key starts with a digit are
/// named in words (`FiftyTwoWeekHigh` for `52WeekHigh`); `key_text` holds
/// each exact key.
#[derive(Clone, Copy, Debug, PartialEq, Eq, Structural)]
pub enum Field {
    Symbol,
    AssetType,
    Name,
    Description,
    Cik,
    Exchange,
    Currency,
    Country,
    Sector,
    Industry,
    Address,
    OfficialSite,
    FiscalYearEnd,
    LatestQuarter,
    MarketCapitalization,
    Ebitda,
    PeRatio,
    PegRatio,
    BookValue,
    DividendPerShare,
    DividendYield,
    Eps,
    RevenuePerShareTtm,
    ProfitMargin,
    OperatingMarginTtm,
    ReturnOnAssetsTtm,
    ReturnOnEquityTtm,
    RevenueTtm,
    GrossProfitTtm,
    DilutedEpsTtm,
    QuarterlyEarningsGrowthYoy,
    QuarterlyRevenueGrowthYoy,
    AnalystTargetPrice,
    AnalystRatingStrongBuy,
    AnalystRatingBuy,
    AnalystRatingHold,
    AnalystRatingSell,
    AnalystRatingStrongSell,
    TrailingPe,
    ForwardPe,
    PriceToSalesRatioTtm,
    PriceToBookRatio,
    EvToRevenue,
    EvToEbitda,
    Beta,
    FiftyTwoWeekHigh,
    FiftyTwoWeekLow,
    FiftyDayMovingAverage,
    TwoHundredDayMovingAverage,
    SharesOutstanding,
    DividendDate,
    ExDividendDate,
}

/// The number of fields of the record.
pub const FIELD_COUNT: usize = 52;

impl Field {
    /// The document key of the field, exactly as the service spells it.
    pub open spec fn key_text(self) -> Seq<char> {
        match self {
            Field::Symbol => "Symbol"@,
            Field::AssetType => "AssetType"@,
            Field::Name => "Name"@,
            Field::Description => "Description"@,
            Field::Cik => "CIK"@,
            Field::Exchange => "Exchange"@,
            Field::Currency => "Currency"@,
            Field::Country => "Country"@,
            Field::Sector => "Sector"@,
            Field::Industry => "Industry"@,
            Field::Address => "Address"@,
            Field::OfficialSite => "OfficialSite"@,
            Field::FiscalYearEnd => "FiscalYearEnd"@,
            Field::LatestQuarter => "LatestQuarter"@,
            Field::MarketCapitalization => "MarketCapitalization"@,
            Field::Ebitda => "EBITDA"@,
            Field::PeRatio => "PERatio"@,
            Field::PegRatio => "PEGRatio"@,
            Field::BookValue => "BookValue"@,
            Field::DividendPerShare => "DividendPerShare"@,
            Field::DividendYield => "DividendYield"@,
            Field::Eps => "EPS"@,
            Field::RevenuePerShareTtm => "RevenuePerShareTTM"@,
            Field::ProfitMargin => "ProfitMargin"@,
            Field::OperatingMarginTtm => "OperatingMarginTTM"@,
            Field::ReturnOnAssetsTtm => "ReturnOnAssetsTTM"@,
            Field::ReturnOnEquityTtm => "ReturnOnEquityTTM"@,
            Field::RevenueTtm => "RevenueTTM"@,
            Field::GrossProfitTtm => "GrossProfitTTM"@,
            Field::DilutedEpsTtm => "DilutedEPSTTM"@,
            Field::QuarterlyEarningsGrowthYoy => "QuarterlyEarningsGrowthYOY"@,
            Field::QuarterlyRevenueGrowthYoy => "QuarterlyRevenueGrowthYOY"@,
            Field::AnalystTargetPrice => "AnalystTargetPrice"@,
            Field::AnalystRatingStrongBuy => "AnalystRatingStrongBuy"@,
            Field::AnalystRatingBuy => "AnalystRatingBuy"@,
            Field::AnalystRatingHold => "AnalystRatingHold"@,
            Field::AnalystRatingSell => "AnalystRatingSell"@,
            Field::AnalystRatingStrongSell => "AnalystRatingStrongSell"@,
            Field::TrailingPe => "TrailingPE"@,
            Field::ForwardPe => "ForwardPE"@,
            Field::PriceToSalesRatioTtm => "PriceToSalesRatioTTM"@,
            Field::PriceToBookRatio => "PriceToBookRatio"@,
            Field::EvToRevenue => "EVToRevenue"@,
            Field::EvToEbitda => "EVToEBITDA"@,
            Field::Beta => "Beta"@,
            Field::FiftyTwoWeekHigh => "52WeekHigh"@,
            Field::FiftyTwoWeekLow => "52WeekLow"@,
            Field::FiftyDayMovingAverage => "50DayMovingAverage"@,
            Field::TwoHundredDayMovingAverage => "200DayMovingAverage"@,
            Field::SharesOutstanding => "SharesOutstanding"@,
            Field::DividendDate => "DividendDate"@,
            Field::ExDividendDate => "ExDividendDate"@,
        }
    }

    pub fn key(&self) -> (r: &'static str)
        ensures
            r@ == self.key_text(),
    {
        match self {
            Field::Symbol => "Symbol",
            Field::AssetType => "AssetType",
            Field::Name => "Name",
            Field::Description => "Description",
            Field::Cik => "CIK",
            Field::Exchange => "Exchange",
            Field::Currency => "Currency",
            Field::Country => "Country",
            Field::Sector => "Sector",
            Field::Industry => "Industry",
            Field::Address => "Address",
            Field::OfficialSite => "OfficialSite",
            Field::FiscalYearEnd => "FiscalYearEnd",
            Field::LatestQuarter => "LatestQuarter",
            Field::MarketCapitalization => "MarketCapitalization",
            Field::Ebitda => "EBITDA",
            Field::PeRatio => "PERatio",
            Field::PegRatio => "PEGRatio",
            Field::BookValue => "BookValue",
            Field::DividendPerShare => "DividendPerShare",
            Field::DividendYield => "DividendYield",
            Field::Eps => "EPS",
            Field::RevenuePerShareTtm => "RevenuePerShareTTM",
            Field::ProfitMargin => "ProfitMargin",
            Field::OperatingMarginTtm => "OperatingMarginTTM",
            Field::ReturnOnAssetsTtm => "ReturnOnAssetsTTM",
            Field::ReturnOnEquityTtm => "ReturnOnEquityTTM",
            Field::RevenueTtm => "RevenueTTM",
            Field::GrossProfitTtm => "GrossProfitTTM",
            Field::DilutedEpsTtm => "DilutedEPSTTM",
            Field::QuarterlyEarningsGrowthYoy => "QuarterlyEarningsGrowthYOY",
            Field::QuarterlyRevenueGrowthYoy => "QuarterlyRevenueGrowthYOY",
            Field::AnalystTargetPrice => "AnalystTargetPrice",
            Field::AnalystRatingStrongBuy => "AnalystRatingStrongBuy",
            Field::AnalystRatingBuy => "AnalystRatingBuy",
            Field::AnalystRatingHold => "AnalystRatingHold",
            Field::AnalystRatingSell => "AnalystRatingSell",
            Field::AnalystRatingStrongSell => "AnalystRatingStrongSell",
            Field::TrailingPe => "TrailingPE",
            Field::ForwardPe => "ForwardPE",
            Field::PriceToSalesRatioTtm => "PriceToSalesRatioTTM",
            Field::PriceToBookRatio => "PriceToBookRatio",
            Field::EvToRevenue => "EVToRevenue",
            Field::EvToEbitda => "EVToEBITDA",
            Field::Beta => "Beta",
            Field::FiftyTwoWeekHigh => "52WeekHigh",
            Field::FiftyTwoWeekLow => "52WeekLow",
            Field::FiftyDayMovingAverage => "50DayMovingAverage",
            Field::TwoHundredDayMovingAverage => "200DayMovingAverage",
            Field::SharesOutstanding => "SharesOutstanding",
            Field::DividendDate => "DividendDate",
            Field::ExDividendDate => "ExDividendDate",
        }
    }

    pub open spec fn kind_of(self) -> FieldKind {
        match self {
            Field::Symbol => FieldKind::Text,
            Field::AssetType => FieldKind::Text,
            Field::Name => FieldKind::Text,
            Field::Description => FieldKind::Text,
            Field::Cik => FieldKind::Text,
            Field::Exchange => FieldKind::Text,
            Field::Currency => FieldKind::Text,
            Field::Country => FieldKind::Text,
            Field::Sector => FieldKind::Text,
            Field::Industry => FieldKind::Text,
            Field::Address => FieldKind::Text,
            Field::OfficialSite => FieldKind::Text,
            Field::FiscalYearEnd => FieldKind::Text,
            Field::LatestQuarter => FieldKind::Date,
            Field::MarketCapitalization => FieldKind::Float,
            Field::Ebitda => FieldKind::Signed,
            Field::PeRatio => FieldKind::Float,
            Field::PegRatio => FieldKind::Float,
            Field::BookValue => FieldKind::Float,
            Field::DividendPerShare => FieldKind::Float,
            Field::DividendYield => FieldKind::Float,
            Field::Eps => FieldKind::Float,
            Field::RevenuePerShareTtm => FieldKind::Float,
            Field::ProfitMargin => FieldKind::Float,
            Field::OperatingMarginTtm => FieldKind::Float,
            Field::ReturnOnAssetsTtm => FieldKind::Float,
            Field::ReturnOnEquityTtm => FieldKind::Float,
            Field::RevenueTtm => FieldKind::Unsigned,
            Field::GrossProfitTtm => FieldKind::Unsigned,
            Field::DilutedEpsTtm => FieldKind::Float,
            Field::QuarterlyEarningsGrowthYoy => FieldKind::Float,
            Field::QuarterlyRevenueGrowthYoy => FieldKind::Float,
            Field::AnalystTargetPrice => FieldKind::Float,
            Field::AnalystRatingStrongBuy => FieldKind::Count,
            Field::AnalystRatingBuy => FieldKind::Count,
            Field::AnalystRatingHold => FieldKind::Count,
            Field::AnalystRatingSell => FieldKind::Count,
            Field::AnalystRatingStrongSell => FieldKind::Count,
            Field::TrailingPe => FieldKind::Float,
            Field::ForwardPe => FieldKind::Float,
            Field::PriceToSalesRatioTtm => FieldKind::Float,
            Field::PriceToBookRatio => FieldKind::Float,
            Field::EvToRevenue => FieldKind::Float,
            Field::EvToEbitda => FieldKind::Float,
            Field::Beta => FieldKind::Float,
            Field::FiftyTwoWeekHigh => FieldKind::Float,
            Field::FiftyTwoWeekLow => FieldKind::Float,
            Field::FiftyDayMovingAverage => FieldKind::Float,
            Field::TwoHundredDayMovingAverage => FieldKind::Float,
            Field::SharesOutstanding => FieldKind::Unsigned,
            Field::DividendDate => FieldKind::Date,
            Field::ExDividendDate => FieldKind::Date,
        }
    }

    pub fn kind(&self) -> (r: FieldKind)
        ensures
            r == self.kind_of(),
    {
        match self {
            Field::Symbol => FieldKind::Text,
            Field::AssetType => FieldKind::Text,
            Field::Name => FieldKind::Text,
            Field::Description => FieldKind::Text,
            Field::Cik => FieldKind::Text,
            Field::Exchange => FieldKind::Text,
            Field::Currency => FieldKind::Text,
            Field::Country => FieldKind::Text,
            Field::Sector => FieldKind::Text,
            Field::Industry => FieldKind::Text,
            Field::Address => FieldKind::Text,
            Field::OfficialSite => FieldKind::Text,
            Field::FiscalYearEnd => FieldKind::Text,
            Field::LatestQuarter => FieldKind::Date,
            Field::MarketCapitalization => FieldKind::Float,
            Field::Ebitda => FieldKind::Signed,
            Field::PeRatio => FieldKind::Float,
            Field::PegRatio => FieldKind::Float,
            Field::BookValue => FieldKind::Float,
            Field::DividendPerShare => FieldKind::Float,
            Field::DividendYield => FieldKind::Float,
            Field::Eps => FieldKind::Float,
            Field::RevenuePerShareTtm => FieldKind::Float,
            Field::ProfitMargin => FieldKind::Float,
            Field::OperatingMarginTtm => FieldKind::Float,
            Field::ReturnOnAssetsTtm => FieldKind::Float,
            Field::ReturnOnEquityTtm => FieldKind::Float,
            Field::RevenueTtm => FieldKind::Unsigned,
            Field::GrossProfitTtm => FieldKind::Unsigned,
            Field::DilutedEpsTtm => FieldKind::Float,
            Field::QuarterlyEarningsGrowthYoy => FieldKind::Float,
            Field::QuarterlyRevenueGrowthYoy => FieldKind::Float,
            Field::AnalystTargetPrice => FieldKind::Float,
            Field::AnalystRatingStrongBuy => FieldKind::Count,
            Field::AnalystRatingBuy => FieldKind::Count,
            Field::AnalystRatingHold => FieldKind::Count,
            Field::AnalystRatingSell => FieldKind::Count,
            Field::AnalystRatingStrongSell => FieldKind::Count,
            Field::TrailingPe => FieldKind::Float,
            Field::ForwardPe => FieldKind::Float,
            Field::PriceToSalesRatioTtm => FieldKind::Float,
            Field::PriceToBookRatio => FieldKind::Float,
            Field::EvToRevenue => FieldKind::Float,
            Field::EvToEbitda => FieldKind::Float,
            Field::Beta => FieldKind::Float,
            Field::FiftyTwoWeekHigh => FieldKind::Float,
            Field::FiftyTwoWeekLow => FieldKind::Float,
            Field::FiftyDayMovingAverage => FieldKind::Float,
            Field::TwoHundredDayMovingAverage => FieldKind::Float,
            Field::SharesOutstanding => FieldKind::Unsigned,
            Field::DividendDate => FieldKind::Date,
            Field::ExDividendDate => FieldKind::Date,
        }
    }

    /// The position of the field in the schema; fields are read in this order.
    pub open spec fn rank(self) -> int {
        match self {
            Field::Symbol => 0,
            Field::AssetType => 1,
            Field::Name => 2,
            Field::Description => 3,
            Field::Cik => 4,
            Field::Exchange => 5,
            Field::Currency => 6,
            Field::Country => 7,
            Field::Sector => 8,
            Field::Industry => 9,
            Field::Address => 10,
            Field::OfficialSite => 11,
            Field::FiscalYearEnd => 12,
            Field::LatestQuarter => 13,
            Field::MarketCapitalization => 14,
            Field::Ebitda => 15,
            Field::PeRatio => 16,
            Field::PegRatio => 17,
            Field::BookValue => 18,
            Field::DividendPerShare => 19,
            Field::DividendYield => 20,
            Field::Eps => 21,
            Field::RevenuePerShareTtm => 22,
            Field::ProfitMargin => 23,
            Field::OperatingMarginTtm => 24,
            Field::ReturnOnAssetsTtm => 25,
            Field::ReturnOnEquityTtm => 26,
            Field::RevenueTtm => 27,
            Field::GrossProfitTtm => 28,
            Field::DilutedEpsTtm => 29,
            Field::QuarterlyEarningsGrowthYoy => 30,
            Field::QuarterlyRevenueGrowthYoy => 31,
            Field::AnalystTargetPrice => 32,
            Field::AnalystRatingStrongBuy => 33,
            Field::AnalystRatingBuy => 34,
            Field::AnalystRatingHold => 35,
            Field::AnalystRatingSell => 36,
            Field::AnalystRatingStrongSell => 37,
            Field::TrailingPe => 38,
            Field::ForwardPe => 39,
            Field::PriceToSalesRatioTtm => 40,
            Field::PriceToBookRatio => 41,
            Field::EvToRevenue => 42,
            Field::EvToEbitda => 43,
            Field::Beta => 44,
            Field::FiftyTwoWeekHigh => 45,
            Field::FiftyTwoWeekLow => 46,
            Field::FiftyDayMovingAverage => 47,
            Field::TwoHundredDayMovingAverage => 48,
            Field::SharesOutstanding => 49,
            Field::DividendDate => 50,
            Field::ExDividendDate => 51,
        }
    }
}

/// Fields stand at distinct positions of the schema.
pub proof fn lemma_rank(f: Field, g: Field)
    ensures
        0 <= f.rank() < FIELD_COUNT,
        f.rank() == g.rank() ==> f == g,
{
}

} // verus!
