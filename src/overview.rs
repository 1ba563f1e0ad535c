//! The overview record and its parser: each field is looked up by its
//! document key, and its string value is read according to the field's kind.
use crate::date::{calendar_date, read_date, Date};
use crate::field::{lemma_rank, Field, FieldKind};
use crate::json::{decode_members, is_json_space, json_members, lookup, member, JsonKind, JsonValue};
use crate::number::{
    i64_of, is_float_literal, parse_i64, parse_u32, parse_u64, u32_of, u64_of, FloatLiteral,
};
use vstd::prelude::*;
use vstd::utf8::encode_utf8;

verus! {

/// A snapshot of a company's fundamentals. Every field is required.
#[derive(Clone, Debug, PartialEq, Eq)]
pub struct Overview {
    pub symbol: String,
    pub asset_type: String,
    pub name: String,
    pub description: String,
    pub cik: String,
    pub exchange: String,
    pub currency: String,
    pub country: String,
    pub sector: String,
    pub industry: String,
    pub address: String,
    pub official_site: String,
    pub fiscal_year_end: String,
    pub latest_quarter: Date,
    pub market_capitalization: FloatLiteral,
    pub ebitda: i64,
    pub pe_ratio: FloatLiteral,
    pub peg_ratio: FloatLiteral,
    pub book_value: FloatLiteral,
    pub dividend_per_share: FloatLiteral,
    pub dividend_yield: FloatLiteral,
    pub eps: FloatLiteral,
    pub revenue_per_share_ttm: FloatLiteral,
    pub profit_margin: FloatLiteral,
    pub operating_margin_ttm: FloatLiteral,
    pub return_on_assets_ttm: FloatLiteral,
    pub return_on_equity_ttm: FloatLiteral,
    pub revenue_ttm: u64,
    pub gross_profit_ttm: u64,
    pub diluted_eps_ttm: FloatLiteral,
    pub quarterly_earnings_growth_yoy: FloatLiteral,
    pub quarterly_revenue_growth_yoy: FloatLiteral,
    pub analyst_target_price: FloatLiteral,
    pub analyst_rating_strong_buy: u32,
    pub analyst_rating_buy: u32,
    pub analyst_rating_hold: u32,
    pub analyst_rating_sell: u32,
    pub analyst_rating_strong_sell: u32,
    pub trailing_pe: FloatLiteral,
    pub forward_pe: FloatLiteral,
    pub price_to_sales_ratio_ttm: FloatLiteral,
    pub price_to_book_ratio: FloatLiteral,
    pub ev_to_revenue: FloatLiteral,
    pub ev_to_ebitda: FloatLiteral,
    pub beta: FloatLiteral,
    pub fifty_two_week_high: FloatLiteral,
    pub fifty_two_week_low: FloatLiteral,
    pub fifty_day_moving_average: FloatLiteral,
    pub two_hundred_day_moving_average: FloatLiteral,
    pub shares_outstanding: u64,
    pub dividend_date: Date,
    pub ex_dividend_date: Date,
}

/// Why a document could not be read as an overview.
#[derive(Clone, Debug, PartialEq, Eq)]
pub enum OverviewError {
    /// The bytes are not JSON, or the document is not an object.
    Malformed { message: String },
    /// The document has no member for the field.
    MissingField { field: Field },
    /// The member for the field is not a JSON string.
    TypeMismatch { field: Field, found: JsonKind },
    /// The string of a numeric field is not a number of the field's type.
    Coercion { field: Field, text: String },
    /// The string of a date field is not a `YYYY-MM-DD` calendar date.
    DateFormat { field: Field, text: String },
}

/// The value of one field, as contracts speak of it.
pub enum FieldValue {
    Text(Seq<char>),
    Date(Date),
    Float(Seq<char>),
    Signed(i64),
    Unsigned(u64),
    Count(u32),
}

impl Overview {
    /// The value that the record holds for a field.
    pub open spec fn cell(self, f: Field) -> FieldValue {
        match f {
            Field::Symbol => FieldValue::Text(self.symbol@),
            Field::AssetType => FieldValue::Text(self.asset_type@),
            Field::Name => FieldValue::Text(self.name@),
            Field::Description => FieldValue::Text(self.description@),
            Field::Cik => FieldValue::Text(self.cik@),
            Field::Exchange => FieldValue::Text(self.exchange@),
            Field::Currency => FieldValue::Text(self.currency@),
            Field::Country => FieldValue::Text(self.country@),
            Field::Sector => FieldValue::Text(self.sector@),
            Field::Industry => FieldValue::Text(self.industry@),
            Field::Address => FieldValue::Text(self.address@),
            Field::OfficialSite => FieldValue::Text(self.official_site@),
            Field::FiscalYearEnd => FieldValue::Text(self.fiscal_year_end@),
            Field::LatestQuarter => FieldValue::Date(self.latest_quarter),
            Field::MarketCapitalization => FieldValue::Float(self.market_capitalization@),
            Field::Ebitda => FieldValue::Signed(self.ebitda),
            Field::PeRatio => FieldValue::Float(self.pe_ratio@),
            Field::PegRatio => FieldValue::Float(self.peg_ratio@),
            Field::BookValue => FieldValue::Float(self.book_value@),
            Field::DividendPerShare => FieldValue::Float(self.dividend_per_share@),
            Field::DividendYield => FieldValue::Float(self.dividend_yield@),
            Field::Eps => FieldValue::Float(self.eps@),
            Field::RevenuePerShareTtm => FieldValue::Float(self.revenue_per_share_ttm@),
            Field::ProfitMargin => FieldValue::Float(self.profit_margin@),
            Field::OperatingMarginTtm => FieldValue::Float(self.operating_margin_ttm@),
            Field::ReturnOnAssetsTtm => FieldValue::Float(self.return_on_assets_ttm@),
            Field::ReturnOnEquityTtm => FieldValue::Float(self.return_on_equity_ttm@),
            Field::RevenueTtm => FieldValue::Unsigned(self.revenue_ttm),
            Field::GrossProfitTtm => FieldValue::Unsigned(self.gross_profit_ttm),
            Field::DilutedEpsTtm => FieldValue::Float(self.diluted_eps_ttm@),
            Field::QuarterlyEarningsGrowthYoy => FieldValue::Float(self.quarterly_earnings_growth_yoy@),
            Field::QuarterlyRevenueGrowthYoy => FieldValue::Float(self.quarterly_revenue_growth_yoy@),
            Field::AnalystTargetPrice => FieldValue::Float(self.analyst_target_price@),
            Field::AnalystRatingStrongBuy => FieldValue::Count(self.analyst_rating_strong_buy),
            Field::AnalystRatingBuy => FieldValue::Count(self.analyst_rating_buy),
            Field::AnalystRatingHold => FieldValue::Count(self.analyst_rating_hold),
            Field::AnalystRatingSell => FieldValue::Count(self.analyst_rating_sell),
            Field::AnalystRatingStrongSell => FieldValue::Count(self.analyst_rating_strong_sell),
            Field::TrailingPe => FieldValue::Float(self.trailing_pe@),
            Field::ForwardPe => FieldValue::Float(self.forward_pe@),
            Field::PriceToSalesRatioTtm => FieldValue::Float(self.price_to_sales_ratio_ttm@),
            Field::PriceToBookRatio => FieldValue::Float(self.price_to_book_ratio@),
            Field::EvToRevenue => FieldValue::Float(self.ev_to_revenue@),
            Field::EvToEbitda => FieldValue::Float(self.ev_to_ebitda@),
            Field::Beta => FieldValue::Float(self.beta@),
            Field::FiftyTwoWeekHigh => FieldValue::Float(self.fifty_two_week_high@),
            Field::FiftyTwoWeekLow => FieldValue::Float(self.fifty_two_week_low@),
            Field::FiftyDayMovingAverage => FieldValue::Float(self.fifty_day_moving_average@),
            Field::TwoHundredDayMovingAverage => FieldValue::Float(self.two_hundred_day_moving_average@),
            Field::SharesOutstanding => FieldValue::Unsigned(self.shares_outstanding),
            Field::DividendDate => FieldValue::Date(self.dividend_date),
            Field::ExDividendDate => FieldValue::Date(self.ex_dividend_date),
        }
    }
}

/// What the string `s` of field `f` is read as.
pub open spec fn coerce(f: Field, s: String) -> Result<FieldValue, OverviewError> {
    let t = encode_utf8(s@);
    let bad = OverviewError::Coercion { field: f, text: s };
    match f.kind_of() {
        FieldKind::Text => Ok(FieldValue::Text(s@)),
        FieldKind::Date => match calendar_date(s@) {
            Some(d) => Ok(FieldValue::Date(d)),
            None => Err(OverviewError::DateFormat { field: f, text: s }),
        },
        FieldKind::Float => if is_float_literal(t) {
            Ok(FieldValue::Float(s@))
        } else {
            Err(bad)
        },
        FieldKind::Signed => match i64_of(t) {
            Some(v) => Ok(FieldValue::Signed(v)),
            None => Err(bad),
        },
        FieldKind::Unsigned => match u64_of(t) {
            Some(v) => Ok(FieldValue::Unsigned(v)),
            None => Err(bad),
        },
        FieldKind::Count => match u32_of(t) {
            Some(v) => Ok(FieldValue::Count(v)),
            None => Err(bad),
        },
    }
}

/// What field `f` is read as from the members `m` of a document.
pub open spec fn field_result(m: Seq<(String, JsonValue)>, f: Field) -> Result<
    FieldValue,
    OverviewError,
> {
    match member(m, f.key_text()) {
        None => Err(OverviewError::MissingField { field: f }),
        Some(JsonValue::Text(s)) => coerce(f, s),
        Some(v) => Err(OverviewError::TypeMismatch { field: f, found: v.kind_of() }),
    }
}

/// Every field before position `k` of the schema reads without error.
pub open spec fn ok_before(m: Seq<(String, JsonValue)>, k: int) -> bool {
    forall|g: Field| g.rank() < k ==> (#[trigger] field_result(m, g)) is Ok
}

/// `r` is the outcome of reading an overview from the members `m`: the
/// record of what every field reads as, or else the error of the first
/// field, in schema order, that does not read.
pub open spec fn parsed_as(m: Seq<(String, JsonValue)>, r: Result<Overview, OverviewError>) -> bool {
    match r {
        Ok(o) => forall|f: Field| #[trigger] field_result(m, f) == Ok::<FieldValue, OverviewError>(o.cell(f)),
        Err(e) => exists|f: Field|
            #[trigger] field_result(m, f) == Err::<FieldValue, OverviewError>(e) && ok_before(m, f.rank()),
    }
}

/// `r` is the outcome of parsing the bytes `b` as an overview document.
pub open spec fn parses_to(b: Seq<u8>, r: Result<Overview, OverviewError>) -> bool {
    match json_members(b) {
        None => r matches Err(OverviewError::Malformed { .. }),
        Some(m) => parsed_as(m, r),
    }
}

proof fn lemma_ok_next(m: Seq<(String, JsonValue)>, f: Field)
    requires
        ok_before(m, f.rank()),
        field_result(m, f) is Ok,
    ensures
        ok_before(m, f.rank() + 1),
{
    assert forall|g: Field| g.rank() < f.rank() + 1 implies (#[trigger] field_result(m, g)) is Ok by {
        lemma_rank(g, f);
    }
}

/// The string member for `f`, or the error when it is absent or not a string.
fn member_text<'a>(m: &'a Vec<(String, JsonValue)>, f: Field) -> (r: Result<&'a String, OverviewError>)
    ensures
        r matches Ok(s) ==> member(m@, f.key_text()) == Some(JsonValue::Text(*s)),
        r matches Err(e) ==> field_result(m@, f) == Err::<FieldValue, OverviewError>(e),
{
    match lookup(m, f.key()) {
        None => Err(OverviewError::MissingField { field: f }),
        Some(v) => match v {
            JsonValue::Text(s) => Ok(s),
            _ => Err(OverviewError::TypeMismatch { field: f, found: v.kind() }),
        },
    }
}

/// The date of a date field, given what was read from its text `text`.
pub fn date_from(field: Field, text: &String, date: Option<Date>) -> (r: Result<Date, OverviewError>)
    ensures
        r == (match date {
            Some(d) => Ok(d),
            None => Err(OverviewError::DateFormat { field, text: *text }),
        }),
{
    match date {
        Some(d) => Ok(d),
        None => Err(OverviewError::DateFormat { field, text: text.clone() }),
    }
}

fn text_field(m: &Vec<(String, JsonValue)>, f: Field) -> (r: Result<String, OverviewError>)
    requires
        f.kind_of() == FieldKind::Text,
    ensures
        r matches Ok(v) ==> field_result(m@, f) == Ok::<FieldValue, OverviewError>(FieldValue::Text(v@)),
        r matches Err(e) ==> field_result(m@, f) == Err::<FieldValue, OverviewError>(e),
{
    match member_text(m, f) {
        Ok(s) => Ok(s.clone()),
        Err(e) => Err(e),
    }
}

fn date_field(m: &Vec<(String, JsonValue)>, f: Field) -> (r: Result<Date, OverviewError>)
    requires
        f.kind_of() == FieldKind::Date,
    ensures
        r matches Ok(v) ==> field_result(m@, f) == Ok::<FieldValue, OverviewError>(FieldValue::Date(v)),
        r matches Err(e) ==> field_result(m@, f) == Err::<FieldValue, OverviewError>(e),
{
    match member_text(m, f) {
        Ok(s) => date_from(f, s, read_date(s.as_str())),
        Err(e) => Err(e),
    }
}

fn float_field(m: &Vec<(String, JsonValue)>, f: Field) -> (r: Result<FloatLiteral, OverviewError>)
    requires
        f.kind_of() == FieldKind::Float,
    ensures
        r matches Ok(v) ==> field_result(m@, f) == Ok::<FieldValue, OverviewError>(FieldValue::Float(v@)),
        r matches Err(e) ==> field_result(m@, f) == Err::<FieldValue, OverviewError>(e),
{
    match member_text(m, f) {
        Ok(s) => match FloatLiteral::parse(s.as_str()) {
            Some(x) => Ok(x),
            None => Err(OverviewError::Coercion { field: f, text: s.clone() }),
        },
        Err(e) => Err(e),
    }
}

fn i64_field(m: &Vec<(String, JsonValue)>, f: Field) -> (r: Result<i64, OverviewError>)
    requires
        f.kind_of() == FieldKind::Signed,
    ensures
        r matches Ok(v) ==> field_result(m@, f) == Ok::<FieldValue, OverviewError>(FieldValue::Signed(v)),
        r matches Err(e) ==> field_result(m@, f) == Err::<FieldValue, OverviewError>(e),
{
    match member_text(m, f) {
        Ok(s) => match parse_i64(s.as_str()) {
            Some(x) => Ok(x),
            None => Err(OverviewError::Coercion { field: f, text: s.clone() }),
        },
        Err(e) => Err(e),
    }
}

fn u64_field(m: &Vec<(String, JsonValue)>, f: Field) -> (r: Result<u64, OverviewError>)
    requires
        f.kind_of() == FieldKind::Unsigned,
    ensures
        r matches Ok(v) ==> field_result(m@, f) == Ok::<FieldValue, OverviewError>(FieldValue::Unsigned(v)),
        r matches Err(e) ==> field_result(m@, f) == Err::<FieldValue, OverviewError>(e),
{
    match member_text(m, f) {
        Ok(s) => match parse_u64(s.as_str()) {
            Some(x) => Ok(x),
            None => Err(OverviewError::Coercion { field: f, text: s.clone() }),
        },
        Err(e) => Err(e),
    }
}

fn u32_field(m: &Vec<(String, JsonValue)>, f: Field) -> (r: Result<u32, OverviewError>)
    requires
        f.kind_of() == FieldKind::Count,
    ensures
        r matches Ok(v) ==> field_result(m@, f) == Ok::<FieldValue, OverviewError>(FieldValue::Count(v)),
        r matches Err(e) ==> field_result(m@, f) == Err::<FieldValue, OverviewError>(e),
{
    match member_text(m, f) {
        Ok(s) => match parse_u32(s.as_str()) {
            Some(x) => Ok(x),
            None => Err(OverviewError::Coercion { field: f, text: s.clone() }),
        },
        Err(e) => Err(e),
    }
}

/// Reads an overview from the members of a decoded document.
#[verifier::rlimit(50)]
pub fn from_members(m: &Vec<(String, JsonValue)>) -> (r: Result<Overview, OverviewError>)
    ensures
        parsed_as(m@, r),
{
    proof {
        assert forall|g: Field| g.rank() < 0 implies (#[trigger] field_result(m@, g)) is Ok by {
            lemma_rank(g, g);
        }
    }
    let symbol = match text_field(m, Field::Symbol) {
        Ok(x) => x,
        Err(e) => return Err(e),
    };
    proof {
        lemma_ok_next(m@, Field::Symbol);
    }
    let asset_type = match text_field(m, Field::AssetType) {
        Ok(x) => x,
        Err(e) => return Err(e),
    };
    proof {
        lemma_ok_next(m@, Field::AssetType);
    }
    let name = match text_field(m, Field::Name) {
        Ok(x) => x,
        Err(e) => return Err(e),
    };
    proof {
        lemma_ok_next(m@, Field::Name);
    }
    let description = match text_field(m, Field::Description) {
        Ok(x) => x,
        Err(e) => return Err(e),
    };
    proof {
        lemma_ok_next(m@, Field::Description);
    }
    let cik = match text_field(m, Field::Cik) {
        Ok(x) => x,
        Err(e) => return Err(e),
    };
    proof {
        lemma_ok_next(m@, Field::Cik);
    }
    let exchange = match text_field(m, Field::Exchange) {
        Ok(x) => x,
        Err(e) => return Err(e),
    };
    proof {
        lemma_ok_next(m@, Field::Exchange);
    }
    let currency = match text_field(m, Field::Currency) {
        Ok(x) => x,
        Err(e) => return Err(e),
    };
    proof {
        lemma_ok_next(m@, Field::Currency);
    }
    let country = match text_field(m, Field::Country) {
        Ok(x) => x,
        Err(e) => return Err(e),
    };
    proof {
        lemma_ok_next(m@, Field::Country);
    }
    let sector = match text_field(m, Field::Sector) {
        Ok(x) => x,
        Err(e) => return Err(e),
    };
    proof {
        lemma_ok_next(m@, Field::Sector);
    }
    let industry = match text_field(m, Field::Industry) {
        Ok(x) => x,
        Err(e) => return Err(e),
    };
    proof {
        lemma_ok_next(m@, Field::Industry);
    }
    let address = match text_field(m, Field::Address) {
        Ok(x) => x,
        Err(e) => return Err(e),
    };
    proof {
        lemma_ok_next(m@, Field::Address);
    }
    let official_site = match text_field(m, Field::OfficialSite) {
        Ok(x) => x,
        Err(e) => return Err(e),
    };
    proof {
        lemma_ok_next(m@, Field::OfficialSite);
    }
    let fiscal_year_end = match text_field(m, Field::FiscalYearEnd) {
        Ok(x) => x,
        Err(e) => return Err(e),
    };
    proof {
        lemma_ok_next(m@, Field::FiscalYearEnd);
    }
    let latest_quarter = match date_field(m, Field::LatestQuarter) {
        Ok(x) => x,
        Err(e) => return Err(e),
    };
    proof {
        lemma_ok_next(m@, Field::LatestQuarter);
    }
    let market_capitalization = match float_field(m, Field::MarketCapitalization) {
        Ok(x) => x,
        Err(e) => return Err(e),
    };
    proof {
        lemma_ok_next(m@, Field::MarketCapitalization);
    }
    let ebitda = match i64_field(m, Field::Ebitda) {
        Ok(x) => x,
        Err(e) => return Err(e),
    };
    proof {
        lemma_ok_next(m@, Field::Ebitda);
    }
    let pe_ratio = match float_field(m, Field::PeRatio) {
        Ok(x) => x,
        Err(e) => return Err(e),
    };
    proof {
        lemma_ok_next(m@, Field::PeRatio);
    }
    let peg_ratio = match float_field(m, Field::PegRatio) {
        Ok(x) => x,
        Err(e) => return Err(e),
    };
    proof {
        lemma_ok_next(m@, Field::PegRatio);
    }
    let book_value = match float_field(m, Field::BookValue) {
        Ok(x) => x,
        Err(e) => return Err(e),
    };
    proof {
        lemma_ok_next(m@, Field::BookValue);
    }
    let dividend_per_share = match float_field(m, Field::DividendPerShare) {
        Ok(x) => x,
        Err(e) => return Err(e),
    };
    proof {
        lemma_ok_next(m@, Field::DividendPerShare);
    }
    let dividend_yield = match float_field(m, Field::DividendYield) {
        Ok(x) => x,
        Err(e) => return Err(e),
    };
    proof {
        lemma_ok_next(m@, Field::DividendYield);
    }
    let eps = match float_field(m, Field::Eps) {
        Ok(x) => x,
        Err(e) => return Err(e),
    };
    proof {
        lemma_ok_next(m@, Field::Eps);
    }
    let revenue_per_share_ttm = match float_field(m, Field::RevenuePerShareTtm) {
        Ok(x) => x,
        Err(e) => return Err(e),
    };
    proof {
        lemma_ok_next(m@, Field::RevenuePerShareTtm);
    }
    let profit_margin = match float_field(m, Field::ProfitMargin) {
        Ok(x) => x,
        Err(e) => return Err(e),
    };
    proof {
        lemma_ok_next(m@, Field::ProfitMargin);
    }
    let operating_margin_ttm = match float_field(m, Field::OperatingMarginTtm) {
        Ok(x) => x,
        Err(e) => return Err(e),
    };
    proof {
        lemma_ok_next(m@, Field::OperatingMarginTtm);
    }
    let return_on_assets_ttm = match float_field(m, Field::ReturnOnAssetsTtm) {
        Ok(x) => x,
        Err(e) => return Err(e),
    };
    proof {
        lemma_ok_next(m@, Field::ReturnOnAssetsTtm);
    }
    let return_on_equity_ttm = match float_field(m, Field::ReturnOnEquityTtm) {
        Ok(x) => x,
        Err(e) => return Err(e),
    };
    proof {
        lemma_ok_next(m@, Field::ReturnOnEquityTtm);
    }
    let revenue_ttm = match u64_field(m, Field::RevenueTtm) {
        Ok(x) => x,
        Err(e) => return Err(e),
    };
    proof {
        lemma_ok_next(m@, Field::RevenueTtm);
    }
    let gross_profit_ttm = match u64_field(m, Field::GrossProfitTtm) {
        Ok(x) => x,
        Err(e) => return Err(e),
    };
    proof {
        lemma_ok_next(m@, Field::GrossProfitTtm);
    }
    let diluted_eps_ttm = match float_field(m, Field::DilutedEpsTtm) {
        Ok(x) => x,
        Err(e) => return Err(e),
    };
    proof {
        lemma_ok_next(m@, Field::DilutedEpsTtm);
    }
    let quarterly_earnings_growth_yoy = match float_field(m, Field::QuarterlyEarningsGrowthYoy) {
        Ok(x) => x,
        Err(e) => return Err(e),
    };
    proof {
        lemma_ok_next(m@, Field::QuarterlyEarningsGrowthYoy);
    }
    let quarterly_revenue_growth_yoy = match float_field(m, Field::QuarterlyRevenueGrowthYoy) {
        Ok(x) => x,
        Err(e) => return Err(e),
    };
    proof {
        lemma_ok_next(m@, Field::QuarterlyRevenueGrowthYoy);
    }
    let analyst_target_price = match float_field(m, Field::AnalystTargetPrice) {
        Ok(x) => x,
        Err(e) => return Err(e),
    };
    proof {
        lemma_ok_next(m@, Field::AnalystTargetPrice);
    }
    let analyst_rating_strong_buy = match u32_field(m, Field::AnalystRatingStrongBuy) {
        Ok(x) => x,
        Err(e) => return Err(e),
    };
    proof {
        lemma_ok_next(m@, Field::AnalystRatingStrongBuy);
    }
    let analyst_rating_buy = match u32_field(m, Field::AnalystRatingBuy) {
        Ok(x) => x,
        Err(e) => return Err(e),
    };
    proof {
        lemma_ok_next(m@, Field::AnalystRatingBuy);
    }
    let analyst_rating_hold = match u32_field(m, Field::AnalystRatingHold) {
        Ok(x) => x,
        Err(e) => return Err(e),
    };
    proof {
        lemma_ok_next(m@, Field::AnalystRatingHold);
    }
    let analyst_rating_sell = match u32_field(m, Field::AnalystRatingSell) {
        Ok(x) => x,
        Err(e) => return Err(e),
    };
    proof {
        lemma_ok_next(m@, Field::AnalystRatingSell);
    }
    let analyst_rating_strong_sell = match u32_field(m, Field::AnalystRatingStrongSell) {
        Ok(x) => x,
        Err(e) => return Err(e),
    };
    proof {
        lemma_ok_next(m@, Field::AnalystRatingStrongSell);
    }
    let trailing_pe = match float_field(m, Field::TrailingPe) {
        Ok(x) => x,
        Err(e) => return Err(e),
    };
    proof {
        lemma_ok_next(m@, Field::TrailingPe);
    }
    let forward_pe = match float_field(m, Field::ForwardPe) {
        Ok(x) => x,
        Err(e) => return Err(e),
    };
    proof {
        lemma_ok_next(m@, Field::ForwardPe);
    }
    let price_to_sales_ratio_ttm = match float_field(m, Field::PriceToSalesRatioTtm) {
        Ok(x) => x,
        Err(e) => return Err(e),
    };
    proof {
        lemma_ok_next(m@, Field::PriceToSalesRatioTtm);
    }
    let price_to_book_ratio = match float_field(m, Field::PriceToBookRatio) {
        Ok(x) => x,
        Err(e) => return Err(e),
    };
    proof {
        lemma_ok_next(m@, Field::PriceToBookRatio);
    }
    let ev_to_revenue = match float_field(m, Field::EvToRevenue) {
        Ok(x) => x,
        Err(e) => return Err(e),
    };
    proof {
        lemma_ok_next(m@, Field::EvToRevenue);
    }
    let ev_to_ebitda = match float_field(m, Field::EvToEbitda) {
        Ok(x) => x,
        Err(e) => return Err(e),
    };
    proof {
        lemma_ok_next(m@, Field::EvToEbitda);
    }
    let beta = match float_field(m, Field::Beta) {
        Ok(x) => x,
        Err(e) => return Err(e),
    };
    proof {
        lemma_ok_next(m@, Field::Beta);
    }
    let fifty_two_week_high = match float_field(m, Field::FiftyTwoWeekHigh) {
        Ok(x) => x,
        Err(e) => return Err(e),
    };
    proof {
        lemma_ok_next(m@, Field::FiftyTwoWeekHigh);
    }
    let fifty_two_week_low = match float_field(m, Field::FiftyTwoWeekLow) {
        Ok(x) => x,
        Err(e) => return Err(e),
    };
    proof {
        lemma_ok_next(m@, Field::FiftyTwoWeekLow);
    }
    let fifty_day_moving_average = match float_field(m, Field::FiftyDayMovingAverage) {
        Ok(x) => x,
        Err(e) => return Err(e),
    };
    proof {
        lemma_ok_next(m@, Field::FiftyDayMovingAverage);
    }
    let two_hundred_day_moving_average = match float_field(m, Field::TwoHundredDayMovingAverage) {
        Ok(x) => x,
        Err(e) => return Err(e),
    };
    proof {
        lemma_ok_next(m@, Field::TwoHundredDayMovingAverage);
    }
    let shares_outstanding = match u64_field(m, Field::SharesOutstanding) {
        Ok(x) => x,
        Err(e) => return Err(e),
    };
    proof {
        lemma_ok_next(m@, Field::SharesOutstanding);
    }
    let dividend_date = match date_field(m, Field::DividendDate) {
        Ok(x) => x,
        Err(e) => return Err(e),
    };
    proof {
        lemma_ok_next(m@, Field::DividendDate);
    }
    let ex_dividend_date = match date_field(m, Field::ExDividendDate) {
        Ok(x) => x,
        Err(e) => return Err(e),
    };
    proof {
        lemma_ok_next(m@, Field::ExDividendDate);
    }
    let o = Overview {
        symbol,
        asset_type,
        name,
        description,
        cik,
        exchange,
        currency,
        country,
        sector,
        industry,
        address,
        official_site,
        fiscal_year_end,
        latest_quarter,
        market_capitalization,
        ebitda,
        pe_ratio,
        peg_ratio,
        book_value,
        dividend_per_share,
        dividend_yield,
        eps,
        revenue_per_share_ttm,
        profit_margin,
        operating_margin_ttm,
        return_on_assets_ttm,
        return_on_equity_ttm,
        revenue_ttm,
        gross_profit_ttm,
        diluted_eps_ttm,
        quarterly_earnings_growth_yoy,
        quarterly_revenue_growth_yoy,
        analyst_target_price,
        analyst_rating_strong_buy,
        analyst_rating_buy,
        analyst_rating_hold,
        analyst_rating_sell,
        analyst_rating_strong_sell,
        trailing_pe,
        forward_pe,
        price_to_sales_ratio_ttm,
        price_to_book_ratio,
        ev_to_revenue,
        ev_to_ebitda,
        beta,
        fifty_two_week_high,
        fifty_two_week_low,
        fifty_day_moving_average,
        two_hundred_day_moving_average,
        shares_outstanding,
        dividend_date,
        ex_dividend_date,
    };
    assert forall|f: Field| #[trigger] field_result(m@, f) == Ok::<FieldValue, OverviewError>(o.cell(f)) by {
    }
    Ok(o)
}

/// Parses an overview document from the bytes of its JSON text.
pub fn parse(bytes: &[u8]) -> (r: Result<Overview, OverviewError>)
    ensures
        parses_to(bytes@, r),
        bytes@.len() == 0 || (bytes@[0] != 123 && !is_json_space(bytes@[0])) ==> r matches Err(
            OverviewError::Malformed { .. },
        ),
{
    match decode_members(bytes) {
        Ok(m) => from_members(&m),
        Err(e) => Err(OverviewError::Malformed { message: e.to_string() }),
    }
}

} // verus!
