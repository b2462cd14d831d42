use gurufocus_api::date::Date;
use gurufocus_api::{compact_list, AssetType, Endpoint, GuruFocusConnector};

#[test]
fn test_compact_list() {
    assert_eq!(compact_list(&["1", "2", "3"]), "1,2,3");
    assert_eq!(compact_list(&[]), "");
    assert_eq!(compact_list(&["3"]), "3");
}

#[test]
fn compact_list_keeps_order_and_duplicates() {
    assert_eq!(compact_list(&["b", "a", "b"]), "b,a,b");
    assert_eq!(compact_list(&["", ""]), ",");
}

#[test]
fn stock_endpoint_paths() {
    assert_eq!(Endpoint::Financials("AMZN").path(), "stock/AMZN/financials");
    assert_eq!(Endpoint::KeyRatios("NYSE:BRK.A").path(), "stock/NYSE:BRK.A/keyratios");
    assert_eq!(Endpoint::PriceHistory("NYSE:DIS").path(), "stock/NYSE:DIS/price");
    assert_eq!(
        Endpoint::UnadjustedPriceHistory("NYSE:DIS").path(),
        "stock/NYSE:DIS/unadjusted_price"
    );
    assert_eq!(Endpoint::StockSummary("NYSE:BAC").path(), "stock/NYSE:BAC/summary");
    assert_eq!(Endpoint::GuruTrades("WMT").path(), "stock/WMT/gurus");
    assert_eq!(Endpoint::InsiderTrades("NAS:NVDA").path(), "stock/NAS:NVDA/insider");
    assert_eq!(Endpoint::DividendHistory("NAS:MSFT").path(), "stock/NAS:MSFT/dividend");
    assert_eq!(
        Endpoint::AnalystEstimate("NAS:CSCO").path(),
        "stock/NAS:CSCO/analyst_estimate"
    );
}

#[test]
fn list_endpoint_paths() {
    let tickers = ["NAS:AAPL", "FRA:APC", "LTS:0JQ4"];
    assert_eq!(
        Endpoint::Quotes(&tickers).path(),
        "stock/NAS:AAPL,FRA:APC,LTS:0JQ4/quote"
    );
    let gurus = ["47", "39"];
    assert_eq!(Endpoint::GuruPortfolios(&gurus).path(), "guru/47,39/aggregated");
    assert_eq!(Endpoint::Quotes(&[]).path(), "stock//quote");
}

#[test]
fn plain_endpoint_paths() {
    assert_eq!(Endpoint::GuruList.path(), "gurulist");
    assert_eq!(Endpoint::Exchanges.path(), "exchange_list");
    assert_eq!(Endpoint::ListedStocks("OSL").path(), "exchange_stocks/OSL");
    assert_eq!(Endpoint::InsiderUpdates.path(), "insider_updates");
    assert_eq!(Endpoint::PersonalPortfolio.path(), "portfolio/my_portfolios");
}

#[test]
fn dated_endpoint_paths() {
    let gurus = ["7", "16", "28"];
    let start = Date::from_ymd(2023, 3, 5).unwrap();
    assert_eq!(
        Endpoint::GuruPicks(&gurus, start, 1).path(),
        "guru/7,16,28/picks/2023-03-05/1"
    );
    assert_eq!(
        Endpoint::GuruPicks(&gurus, start, -12).path(),
        "guru/7,16,28/picks/2023-03-05/-12"
    );
    let day = Date::from_ymd(2024, 11, 30).unwrap();
    assert_eq!(Endpoint::UpdatedStocks(day).path(), "funda_updated/2024-11-30");
}

#[test]
fn politician_endpoint_paths() {
    assert_eq!(
        Endpoint::PoliticianTransactions(1, None).path(),
        "politician/trading?page=1"
    );
    assert_eq!(
        Endpoint::PoliticianTransactions(3, Some(AssetType::Etf)).path(),
        "politician/trading?page=3&asset_type=ETF"
    );
    assert_eq!(
        Endpoint::PoliticianTransactions(20, Some(AssetType::CommonStock)).path(),
        "politician/trading?page=20&asset_type=Common Stock"
    );
}

#[test]
fn asset_type_names() {
    assert_eq!(AssetType::CommonStock.name(), "Common Stock");
    assert_eq!(AssetType::Option.name(), "Option");
    assert_eq!(AssetType::Etf.name(), "ETF");
    assert_eq!(AssetType::PreferredStock.name(), "Preferred Stock");
    assert_eq!(AssetType::Bond.name(), "Bond");
    assert_eq!(AssetType::Units.name(), "Units");
    assert_eq!(AssetType::Warrant.name(), "Warrant");
    assert_eq!(AssetType::Other.name(), "Other");
}

#[test]
fn request_urls_hold_token_and_path() {
    let connector = GuruFocusConnector::new("abc123".to_string());
    assert_eq!(
        connector.request_url(&Endpoint::GuruList),
        "https://api.gurufocus.com/public/user/abc123/gurulist"
    );
    assert_eq!(
        connector.request_url(&Endpoint::Financials("AIG")),
        "https://api.gurufocus.com/public/user/abc123/stock/AIG/financials"
    );
}

#[test]
fn request_paths_are_deterministic() {
    let connector = GuruFocusConnector::new("t".to_string());
    let gurus = ["1", "2"];
    let day = Date::from_ymd(2020, 1, 2).unwrap();
    let first = connector.request_url(&Endpoint::GuruPicks(&gurus, day, 2));
    let _other = connector.request_url(&Endpoint::Exchanges);
    let again = connector.request_url(&Endpoint::GuruPicks(&gurus, day, 2));
    assert_eq!(first, again);
    let other_connector = GuruFocusConnector::new("u".to_string());
    assert_eq!(
        Endpoint::GuruPicks(&gurus, day, 2).path(),
        "guru/1,2/picks/2020-01-02/2"
    );
    assert_eq!(
        other_connector.request_url(&Endpoint::GuruPicks(&gurus, day, 2)),
        "https://api.gurufocus.com/public/user/u/guru/1,2/picks/2020-01-02/2"
    );
}
