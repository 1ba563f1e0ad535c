use overview::date::Date;
use overview::field::{Field, FieldKind, FIELD_COUNT};
use overview::json::{lookup, JsonKind, JsonValue};
use overview::number::{is_float_text, parse_i64, parse_u32, parse_u64, FloatLiteral};
use overview::overview::{date_from, from_members, parse, Overview, OverviewError};

fn ibm_members() -> Vec<(&'static str, &'static str)> {
    vec![
        ("Symbol", "IBM"),
        ("AssetType", "Common Stock"),
        ("Name", "International Business Machines"),
        ("Description", "International Business Machines Corporation (IBM) is an American multinational technology company headquartered in Armonk, New York, with operations in over 170 countries. The company began in 1911, founded in Endicott, New York, as the Computing-Tabulating-Recording Company (CTR) and was renamed International Business Machines in 1924. IBM is incorporated in New York. IBM produces and sells computer hardware, middleware and software, and provides hosting and consulting services in areas ranging from mainframe computers to nanotechnology. IBM is also a major research organization, holding the record for most annual U.S. patents generated by a business (as of 2020) for 28 consecutive years. Inventions by IBM include the automated teller machine (ATM), the floppy disk, the hard disk drive, the magnetic stripe card, the relational database, the SQL programming language, the UPC barcode, and dynamic random-access memory (DRAM). The IBM mainframe, exemplified by the System/360, was the dominant computing platform during the 1960s and 1970s."),
        ("CIK", "51143"),
        ("Exchange", "NYSE"),
        ("Currency", "USD"),
        ("Country", "USA"),
        ("Sector", "TECHNOLOGY"),
        ("Industry", "COMPUTER & OFFICE EQUIPMENT"),
        ("Address", "1 NEW ORCHARD ROAD, ARMONK, NY, US"),
        ("OfficialSite", "https://www.ibm.com"),
        ("FiscalYearEnd", "December"),
        ("LatestQuarter", "2025-03-31"),
        ("MarketCapitalization", "216001151000"),
        ("EBITDA", "13926000000"),
        ("PERatio", "39.66"),
        ("PEGRatio", "1.644"),
        ("BookValue", "28.92"),
        ("DividendPerShare", "6.68"),
        ("DividendYield", "0.0287"),
        ("EPS", "5.86"),
        ("RevenuePerShareTTM", "67.97"),
        ("ProfitMargin", "0.0871"),
        ("OperatingMarginTTM", "0.124"),
        ("ReturnOnAssetsTTM", "0.0447"),
        ("ReturnOnEquityTTM", "0.218"),
        ("RevenueTTM", "62832001000"),
        ("GrossProfitTTM", "35840000000"),
        ("DilutedEPSTTM", "5.86"),
        ("QuarterlyEarningsGrowthYOY", "-0.349"),
        ("QuarterlyRevenueGrowthYOY", "0.005"),
        ("AnalystTargetPrice", "253.01"),
        ("AnalystRatingStrongBuy", "3"),
        ("AnalystRatingBuy", "8"),
        ("AnalystRatingHold", "7"),
        ("AnalystRatingSell", "2"),
        ("AnalystRatingStrongSell", "1"),
        ("TrailingPE", "39.66"),
        ("ForwardPE", "21.46"),
        ("PriceToSalesRatioTTM", "3.438"),
        ("PriceToBookRatio", "8.04"),
        ("EVToRevenue", "4.223"),
        ("EVToEBITDA", "21.52"),
        ("Beta", "0.662"),
        ("52WeekHigh", "266.45"),
        ("52WeekLow", "157.33"),
        ("50DayMovingAverage", "247.13"),
        ("200DayMovingAverage", "223.4"),
        ("SharesOutstanding", "929397000"),
        ("DividendDate", "2025-03-10"),
        ("ExDividendDate", "2025-02-10"),
    ]
}

fn document(members: &[(&str, &str)]) -> String {
    let body: Vec<String> = members.iter().map(|(k, v)| format!("\"{}\": \"{}\"", k, v)).collect();
    format!("{{\n{}\n}}", body.join(",\n"))
}

fn with_value(key: &str, value: &str) -> String {
    let members: Vec<(&str, &str)> = ibm_members()
        .into_iter()
        .map(|(k, v)| if k == key { (k, value) } else { (k, v) })
        .collect();
    document(&members)
}

fn float(x: &FloatLiteral) -> f64 {
    x.as_str().parse::<f64>().unwrap()
}

fn date(year: i32, month: u32, day: u32) -> Date {
    Date { year, month, day }
}

#[test]
fn parse_ibm() {
    let data = document(&ibm_members());
    let overview = parse(data.as_bytes()).expect("failed to parse ibm overview results");
    let o: &Overview = &overview;
    assert_eq!(o.symbol, "IBM");
    assert_eq!(o.asset_type, "Common Stock");
    assert_eq!(o.name, "International Business Machines");
    assert_eq!(o.description, ibm_members()[3].1);
    assert!(o.description.starts_with("International Business Machines Corporation (IBM)"));
    assert_eq!(o.cik, "51143");
    assert_eq!(o.exchange, "NYSE");
    assert_eq!(o.currency, "USD");
    assert_eq!(o.country, "USA");
    assert_eq!(o.sector, "TECHNOLOGY");
    assert_eq!(o.industry, "COMPUTER & OFFICE EQUIPMENT");
    assert_eq!(o.address, "1 NEW ORCHARD ROAD, ARMONK, NY, US");
    assert_eq!(o.official_site, "https://www.ibm.com");
    assert_eq!(o.fiscal_year_end, "December");
    assert_eq!(o.latest_quarter, date(2025, 3, 31));
    assert_eq!(float(&o.market_capitalization), 216001151000.0);
    assert_eq!(o.ebitda, 13926000000);
    assert_eq!(float(&o.pe_ratio), 39.66);
    assert_eq!(float(&o.peg_ratio), 1.644);
    assert_eq!(float(&o.book_value), 28.92);
    assert_eq!(float(&o.dividend_per_share), 6.68);
    assert_eq!(float(&o.dividend_yield), 0.0287);
    assert_eq!(float(&o.eps), 5.86);
    assert_eq!(float(&o.revenue_per_share_ttm), 67.97);
    assert_eq!(float(&o.profit_margin), 0.0871);
    assert_eq!(float(&o.operating_margin_ttm), 0.124);
    assert_eq!(float(&o.return_on_assets_ttm), 0.0447);
    assert_eq!(float(&o.return_on_equity_ttm), 0.218);
    assert_eq!(o.revenue_ttm, 62832001000);
    assert_eq!(o.gross_profit_ttm, 35840000000);
    assert_eq!(float(&o.diluted_eps_ttm), 5.86);
    assert_eq!(float(&o.quarterly_earnings_growth_yoy), -0.349);
    assert_eq!(float(&o.quarterly_revenue_growth_yoy), 0.005);
    assert_eq!(float(&o.analyst_target_price), 253.01);
    assert_eq!(o.analyst_rating_strong_buy, 3);
    assert_eq!(o.analyst_rating_buy, 8);
    assert_eq!(o.analyst_rating_hold, 7);
    assert_eq!(o.analyst_rating_sell, 2);
    assert_eq!(o.analyst_rating_strong_sell, 1);
    assert_eq!(float(&o.trailing_pe), 39.66);
    assert_eq!(float(&o.forward_pe), 21.46);
    assert_eq!(float(&o.price_to_sales_ratio_ttm), 3.438);
    assert_eq!(float(&o.price_to_book_ratio), 8.04);
    assert_eq!(float(&o.ev_to_revenue), 4.223);
    assert_eq!(float(&o.ev_to_ebitda), 21.52);
    assert_eq!(float(&o.beta), 0.662);
    assert_eq!(float(&o.fifty_two_week_high), 266.45);
    assert_eq!(float(&o.fifty_two_week_low), 157.33);
    assert_eq!(float(&o.fifty_day_moving_average), 247.13);
    assert_eq!(float(&o.two_hundred_day_moving_average), 223.4);
    assert_eq!(o.shares_outstanding, 929397000);
    assert_eq!(o.dividend_date, date(2025, 3, 10));
    assert_eq!(o.ex_dividend_date, date(2025, 2, 10));
}

#[test]
fn parsing_twice_gives_equal_records() {
    let data = document(&ibm_members());
    let a = parse(data.as_bytes()).unwrap();
    let b = parse(data.as_bytes()).unwrap();
    assert_eq!(a, b);
}

#[test]
fn every_missing_key_is_reported() {
    let all = ibm_members();
    assert_eq!(all.len(), FIELD_COUNT);
    for (key, _) in &all {
        let rest: Vec<(&str, &str)> = all.iter().copied().filter(|(k, _)| k != key).collect();
        match parse(document(&rest).as_bytes()) {
            Err(OverviewError::MissingField { field }) => assert_eq!(field.key(), *key),
            other => panic!("{}: {:?}", key, other),
        }
    }
}

#[test]
fn zero_reads_as_zero_of_each_numeric_kind() {
    let o = parse(with_value("EBITDA", "0").as_bytes()).unwrap();
    assert_eq!(o.ebitda, 0);
    let o = parse(with_value("RevenueTTM", "0").as_bytes()).unwrap();
    assert_eq!(o.revenue_ttm, 0);
    let o = parse(with_value("AnalystRatingBuy", "0").as_bytes()).unwrap();
    assert_eq!(o.analyst_rating_buy, 0);
    let o = parse(with_value("PERatio", "0").as_bytes()).unwrap();
    assert_eq!(float(&o.pe_ratio), 0.0);
}

#[test]
fn negative_signed_field_reads() {
    let o = parse(with_value("EBITDA", "-13926000000").as_bytes()).unwrap();
    assert_eq!(o.ebitda, -13926000000);
}

#[test]
fn negative_unsigned_field_is_refused() {
    let r = parse(with_value("RevenueTTM", "-62832001000").as_bytes());
    assert_eq!(
        r,
        Err(OverviewError::Coercion { field: Field::RevenueTtm, text: "-62832001000".to_string() })
    );
    let r = parse(with_value("AnalystRatingHold", "-7").as_bytes());
    assert_eq!(
        r,
        Err(OverviewError::Coercion { field: Field::AnalystRatingHold, text: "-7".to_string() })
    );
}

#[test]
fn decimal_in_integer_field_is_refused() {
    let r = parse(with_value("SharesOutstanding", "929397000.5").as_bytes());
    assert!(matches!(r, Err(OverviewError::Coercion { field: Field::SharesOutstanding, .. })));
}

#[test]
fn non_numeric_float_field_is_refused() {
    let r = parse(with_value("Beta", "None").as_bytes());
    assert_eq!(r, Err(OverviewError::Coercion { field: Field::Beta, text: "None".to_string() }));
}

#[test]
fn iso_date_reads_as_that_date() {
    let o = parse(with_value("LatestQuarter", "2025-03-31").as_bytes()).unwrap();
    assert_eq!(o.latest_quarter, date(2025, 3, 31));
    let o = parse(with_value("DividendDate", "2024-02-29").as_bytes()).unwrap();
    assert_eq!(o.dividend_date, date(2024, 2, 29));
}

#[test]
fn non_iso_date_is_refused() {
    let r = parse(with_value("LatestQuarter", "03/31/2025").as_bytes());
    assert_eq!(
        r,
        Err(OverviewError::DateFormat { field: Field::LatestQuarter, text: "03/31/2025".to_string() })
    );
    let r = parse(with_value("ExDividendDate", "2023-02-29").as_bytes());
    assert!(matches!(r, Err(OverviewError::DateFormat { field: Field::ExDividendDate, .. })));
}

#[test]
fn leading_digit_key_maps_to_its_field() {
    assert_eq!(Field::FiftyTwoWeekHigh.key(), "52WeekHigh");
    let o = parse(with_value("52WeekHigh", "1.5").as_bytes()).unwrap();
    assert_eq!(float(&o.fifty_two_week_high), 1.5);
    assert_eq!(float(&o.fifty_two_week_low), 157.33);
    assert_eq!(Field::TwoHundredDayMovingAverage.key(), "200DayMovingAverage");
}

#[test]
fn malformed_input_is_refused() {
    for input in ["", "[]", "[{\"Symbol\": \"IBM\"}]", "not json", "{\"Symbol\": ", "\"IBM\""] {
        assert!(
            matches!(parse(input.as_bytes()), Err(OverviewError::Malformed { .. })),
            "{:?}",
            input
        );
    }
}

#[test]
fn value_of_wrong_kind_is_a_type_mismatch() {
    let data = document(&ibm_members()).replace("\"EBITDA\": \"13926000000\"", "\"EBITDA\": 13926000000");
    assert_eq!(
        parse(data.as_bytes()),
        Err(OverviewError::TypeMismatch { field: Field::Ebitda, found: JsonKind::Number })
    );
    let data = document(&ibm_members()).replace("\"Symbol\": \"IBM\"", "\"Symbol\": null");
    assert_eq!(
        parse(data.as_bytes()),
        Err(OverviewError::TypeMismatch { field: Field::Symbol, found: JsonKind::Null })
    );
}

#[test]
fn first_failing_field_in_schema_order_is_reported() {
    let rest: Vec<(&str, &str)> =
        ibm_members().into_iter().filter(|(k, _)| *k != "ExDividendDate").collect();
    let data = document(&rest).replace("\"Beta\": \"0.662\"", "\"Beta\": \"x\"");
    assert_eq!(
        parse(data.as_bytes()),
        Err(OverviewError::Coercion { field: Field::Beta, text: "x".to_string() })
    );
}

#[test]
fn unknown_keys_are_ignored() {
    let data = document(&ibm_members()).replacen("{", "{\"Extra\": [1, {\"a\": 2}], ", 1);
    assert_eq!(parse(data.as_bytes()).unwrap().symbol, "IBM");
}

#[test]
fn signed_integer_bounds() {
    assert_eq!(parse_i64("9223372036854775807"), Some(i64::MAX));
    assert_eq!(parse_i64("-9223372036854775808"), Some(i64::MIN));
    assert_eq!(parse_i64("9223372036854775808"), None);
    assert_eq!(parse_i64("-9223372036854775809"), None);
    assert_eq!(parse_i64("+42"), Some(42));
    assert_eq!(parse_i64("-0"), Some(0));
    assert_eq!(parse_i64("007"), Some(7));
    assert_eq!(parse_i64(""), None);
    assert_eq!(parse_i64("-"), None);
    assert_eq!(parse_i64("+"), None);
    assert_eq!(parse_i64("1_000"), None);
    assert_eq!(parse_i64(" 1"), None);
}

#[test]
fn unsigned_integer_bounds() {
    assert_eq!(parse_u64("18446744073709551615"), Some(u64::MAX));
    assert_eq!(parse_u64("18446744073709551616"), None);
    assert_eq!(parse_u64("-1"), None);
    assert_eq!(parse_u64("-0"), None);
    assert_eq!(parse_u64("+5"), Some(5));
    assert_eq!(parse_u32("4294967295"), Some(u32::MAX));
    assert_eq!(parse_u32("4294967296"), None);
    assert_eq!(parse_u32("3"), Some(3));
    assert_eq!(parse_u32("3.0"), None);
}

#[test]
fn float_literal_grammar() {
    for ok in ["39.66", "-0.349", "+1", "5.", ".5", "1e5", "1E-5", "2.5e+3", "inf", "-Infinity", "NaN", "nan"] {
        assert!(is_float_text(ok), "{}", ok);
        assert_eq!(FloatLiteral::parse(ok).unwrap().as_str(), ok);
        assert!(ok.parse::<f64>().is_ok());
    }
    for bad in ["", ".", "-", "e5", "1e", "1e+", "1.2.3", " 1", "1 ", "0x10", "None", "infin", "1,5"] {
        assert!(!is_float_text(bad), "{}", bad);
        assert!(FloatLiteral::parse(bad).is_none());
        assert!(bad.parse::<f64>().is_err());
    }
}

#[test]
fn date_result_decides_the_field() {
    let text = "2025-03-31".to_string();
    assert_eq!(date_from(Field::LatestQuarter, &text, Some(date(2025, 3, 31))), Ok(date(2025, 3, 31)));
    assert_eq!(
        date_from(Field::LatestQuarter, &text, None),
        Err(OverviewError::DateFormat { field: Field::LatestQuarter, text })
    );
}

#[test]
fn lookup_finds_member_by_exact_key() {
    let m = vec![
        ("Beta".to_string(), JsonValue::Text("1".to_string())),
        ("beta".to_string(), JsonValue::Number),
    ];
    assert_eq!(lookup(&m, "Beta"), Some(&JsonValue::Text("1".to_string())));
    assert_eq!(lookup(&m, "beta"), Some(&JsonValue::Number));
    assert_eq!(lookup(&m, "BETA"), None);
    assert_eq!(JsonValue::Array.kind(), JsonKind::Array);
}

#[test]
fn members_read_directly() {
    let m: Vec<(String, JsonValue)> = ibm_members()
        .into_iter()
        .map(|(k, v)| (k.to_string(), JsonValue::Text(v.to_string())))
        .collect();
    assert_eq!(from_members(&m).unwrap().ebitda, 13926000000);
    assert_eq!(from_members(&m[1..].to_vec()), Err(OverviewError::MissingField { field: Field::Symbol }));
}

#[test]
fn schema_kinds() {
    assert_eq!(Field::Ebitda.kind(), FieldKind::Signed);
    assert_eq!(Field::RevenueTtm.kind(), FieldKind::Unsigned);
    assert_eq!(Field::AnalystRatingSell.kind(), FieldKind::Count);
    assert_eq!(Field::DividendDate.kind(), FieldKind::Date);
    assert_eq!(Field::Beta.kind(), FieldKind::Float);
    assert_eq!(Field::Cik.key(), "CIK");
    assert_eq!(Field::Cik.kind(), FieldKind::Text);
}
