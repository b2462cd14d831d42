//! Relative request paths, one per endpoint of the service.
//!
//! A path is built from the caller's arguments alone, with no validation:
//! a malformed symbol gives a malformed path, which the server rejects.

use vstd::prelude::*;

use crate::date::{iso_date, Date};
use crate::decimal::{decimal, push_decimal, push_signed_decimal, signed_decimal};
use crate::gurus::{asset_type_name, AssetType};

verus! {

/// The items joined by commas, in the order given.
pub open spec fn joined(items: Seq<Seq<char>>) -> Seq<char>
    decreases items.len(),
{
    if items.len() == 0 {
        Seq::empty()
    } else if items.len() == 1 {
        items[0]
    } else {
        joined(items.drop_last()) + seq![','] + items.last()
    }
}

/// The texts of a list of string slices.
pub open spec fn texts(items: Seq<&str>) -> Seq<Seq<char>> {
    items.map_values(|s: &str| s@)
}

/// Joins a list of arguments with commas, as the service expects list
/// arguments in a path: in the order given, with no de-duplication.
pub fn compact_list(a: &[&str]) -> (r: String)
    ensures
        r@ == joined(texts(a@)),
{
    let mut res = String::new();
    if a.len() == 0 {
        assert(texts(a@) =~= Seq::<Seq<char>>::empty());
        return res;
    }
    res.append(a[0]);
    assert(texts(a@).take(1) =~= seq![a@[0]@]);
    let mut i: usize = 1;
    while i < a.len()
        invariant
            1 <= i <= a@.len(),
            res@ == joined(texts(a@).take(i as int)),
        decreases a@.len() - i,
    {
        proof {
            reveal_strlit(",");
        }
        res.append(",");
        res.append(a[i]);
        proof {
            let t = texts(a@).take(i + 1);
            assert(t.drop_last() =~= texts(a@).take(i as int));
            assert(t.last() == a@[i as int]@);
        }
        i = i + 1;
    }
    assert(texts(a@).take(i as int) =~= texts(a@));
    res
}

/// An endpoint of the service together with its arguments.
pub enum Endpoint<'a> {
    /// Full history of financial data of a stock.
    Financials(&'a str),
    /// Current key statistic figures of a stock.
    KeyRatios(&'a str),
    /// Current quote data of a list of stocks.
    Quotes(&'a [&'a str]),
    /// History of adjusted prices of a stock.
    PriceHistory(&'a str),
    /// History of unadjusted prices of a stock.
    UnadjustedPriceHistory(&'a str),
    /// Current price, valuation ratios and ranks of a stock.
    StockSummary(&'a str),
    /// Guru trades and holdings in a stock.
    GuruTrades(&'a str),
    /// Insider trades in a stock.
    InsiderTrades(&'a str),
    /// All and personalized lists of gurus.
    GuruList,
    /// Picks of a list of gurus since a start date, one page of them.
    GuruPicks(&'a [&'a str], Date, i32),
    /// Aggregated portfolios of a list of gurus.
    GuruPortfolios(&'a [&'a str]),
    /// The supported exchanges.
    Exchanges,
    /// All stocks listed at an exchange.
    ListedStocks(&'a str),
    /// Latest insider trades.
    InsiderUpdates,
    /// Dividend history of a stock.
    DividendHistory(&'a str),
    /// Analyst estimates of a stock.
    AnalystEstimate(&'a str),
    /// The user's own portfolios.
    PersonalPortfolio,
    /// Stocks whose fundamental data were updated within a week of a date.
    UpdatedStocks(Date),
    /// One page of politicians' transactions, optionally of one asset type.
    PoliticianTransactions(u32, Option<AssetType>),
}

/// The arguments of an endpoint, as values.
pub enum EndpointArgs {
    Financials(Seq<char>),
    KeyRatios(Seq<char>),
    Quotes(Seq<Seq<char>>),
    PriceHistory(Seq<char>),
    UnadjustedPriceHistory(Seq<char>),
    StockSummary(Seq<char>),
    GuruTrades(Seq<char>),
    InsiderTrades(Seq<char>),
    GuruList,
    GuruPicks(Seq<Seq<char>>, (int, int, int), int),
    GuruPortfolios(Seq<Seq<char>>),
    Exchanges,
    ListedStocks(Seq<char>),
    InsiderUpdates,
    DividendHistory(Seq<char>),
    AnalystEstimate(Seq<char>),
    PersonalPortfolio,
    UpdatedStocks((int, int, int)),
    PoliticianTransactions(nat, Option<AssetType>),
}

impl<'a> View for Endpoint<'a> {
    type V = EndpointArgs;

    open spec fn view(&self) -> EndpointArgs {
        match *self {
            Endpoint::Financials(s) => EndpointArgs::Financials(s@),
            Endpoint::KeyRatios(s) => EndpointArgs::KeyRatios(s@),
            Endpoint::Quotes(l) => EndpointArgs::Quotes(texts(l@)),
            Endpoint::PriceHistory(s) => EndpointArgs::PriceHistory(s@),
            Endpoint::UnadjustedPriceHistory(s) => EndpointArgs::UnadjustedPriceHistory(s@),
            Endpoint::StockSummary(s) => EndpointArgs::StockSummary(s@),
            Endpoint::GuruTrades(s) => EndpointArgs::GuruTrades(s@),
            Endpoint::InsiderTrades(s) => EndpointArgs::InsiderTrades(s@),
            Endpoint::GuruList => EndpointArgs::GuruList,
            Endpoint::GuruPicks(l, d, p) => EndpointArgs::GuruPicks(texts(l@), d@, p as int),
            Endpoint::GuruPortfolios(l) => EndpointArgs::GuruPortfolios(texts(l@)),
            Endpoint::Exchanges => EndpointArgs::Exchanges,
            Endpoint::ListedStocks(s) => EndpointArgs::ListedStocks(s@),
            Endpoint::InsiderUpdates => EndpointArgs::InsiderUpdates,
            Endpoint::DividendHistory(s) => EndpointArgs::DividendHistory(s@),
            Endpoint::AnalystEstimate(s) => EndpointArgs::AnalystEstimate(s@),
            Endpoint::PersonalPortfolio => EndpointArgs::PersonalPortfolio,
            Endpoint::UpdatedStocks(d) => EndpointArgs::UpdatedStocks(d@),
            Endpoint::PoliticianTransactions(p, t) => EndpointArgs::PoliticianTransactions(
                p as nat,
                t,
            ),
        }
    }
}

/// `stock/<symbol>/<what>`
pub open spec fn stock_path(symbol: Seq<char>, what: Seq<char>) -> Seq<char> {
    "stock/"@ + symbol + "/"@ + what
}

/// The relative path of each endpoint with its arguments.
pub open spec fn path_of(e: EndpointArgs) -> Seq<char> {
    match e {
        EndpointArgs::Financials(s) => stock_path(s, "financials"@),
        EndpointArgs::KeyRatios(s) => stock_path(s, "keyratios"@),
        EndpointArgs::Quotes(l) => stock_path(joined(l), "quote"@),
        EndpointArgs::PriceHistory(s) => stock_path(s, "price"@),
        EndpointArgs::UnadjustedPriceHistory(s) => stock_path(s, "unadjusted_price"@),
        EndpointArgs::StockSummary(s) => stock_path(s, "summary"@),
        EndpointArgs::GuruTrades(s) => stock_path(s, "gurus"@),
        EndpointArgs::InsiderTrades(s) => stock_path(s, "insider"@),
        EndpointArgs::GuruList => "gurulist"@,
        EndpointArgs::GuruPicks(l, d, p) => "guru/"@ + joined(l) + "/picks/"@ + iso_date(
            d.0,
            d.1,
            d.2,
        ) + "/"@ + signed_decimal(p),
        EndpointArgs::GuruPortfolios(l) => "guru/"@ + joined(l) + "/aggregated"@,
        EndpointArgs::Exchanges => "exchange_list"@,
        EndpointArgs::ListedStocks(s) => "exchange_stocks/"@ + s,
        EndpointArgs::InsiderUpdates => "insider_updates"@,
        EndpointArgs::DividendHistory(s) => stock_path(s, "dividend"@),
        EndpointArgs::AnalystEstimate(s) => stock_path(s, "analyst_estimate"@),
        EndpointArgs::PersonalPortfolio => "portfolio/my_portfolios"@,
        EndpointArgs::UpdatedStocks(d) => "funda_updated/"@ + iso_date(d.0, d.1, d.2),
        EndpointArgs::PoliticianTransactions(p, t) => "politician/trading?page="@ + decimal(p)
            + match t {
            Some(a) => "&asset_type="@ + asset_type_name(a),
            None => Seq::empty(),
        },
    }
}

fn text_of(s: &str) -> (r: String)
    ensures
        r@ == s@,
{
    String::from_str(s)
}

fn build_stock_path(symbol: &str, what: &str) -> (r: String)
    ensures
        r@ == stock_path(symbol@, what@),
{
    let mut r = text_of("stock/");
    r.append(symbol);
    r.append("/");
    r.append(what);
    r
}

impl<'a> Endpoint<'a> {
    /// The relative path of this request.
    pub fn path(&self) -> (r: String)
        ensures
            r@ == path_of(self@),
    {
        match self {
            Endpoint::Financials(s) => build_stock_path(s, "financials"),
            Endpoint::KeyRatios(s) => build_stock_path(s, "keyratios"),
            Endpoint::Quotes(l) => {
                let symbols = compact_list(l);
                build_stock_path(symbols.as_str(), "quote")
            },
            Endpoint::PriceHistory(s) => build_stock_path(s, "price"),
            Endpoint::UnadjustedPriceHistory(s) => build_stock_path(s, "unadjusted_price"),
            Endpoint::StockSummary(s) => build_stock_path(s, "summary"),
            Endpoint::GuruTrades(s) => build_stock_path(s, "gurus"),
            Endpoint::InsiderTrades(s) => build_stock_path(s, "insider"),
            Endpoint::GuruList => text_of("gurulist"),
            Endpoint::GuruPicks(l, d, p) => {
                let mut r = text_of("guru/");
                let gurus = compact_list(l);
                r.append(gurus.as_str());
                r.append("/picks/");
                let date = d.iso_text();
                r.append(date.as_str());
                r.append("/");
                push_signed_decimal(&mut r, *p as i64);
                r
            },
            Endpoint::GuruPortfolios(l) => {
                let mut r = text_of("guru/");
                let gurus = compact_list(l);
                r.append(gurus.as_str());
                r.append("/aggregated");
                r
            },
            Endpoint::Exchanges => text_of("exchange_list"),
            Endpoint::ListedStocks(s) => {
                let mut r = text_of("exchange_stocks/");
                r.append(s);
                r
            },
            Endpoint::InsiderUpdates => text_of("insider_updates"),
            Endpoint::DividendHistory(s) => build_stock_path(s, "dividend"),
            Endpoint::AnalystEstimate(s) => build_stock_path(s, "analyst_estimate"),
            Endpoint::PersonalPortfolio => text_of("portfolio/my_portfolios"),
            Endpoint::UpdatedStocks(d) => {
                let mut r = text_of("funda_updated/");
                let date = d.iso_text();
                r.append(date.as_str());
                r
            },
            Endpoint::PoliticianTransactions(p, t) => {
                let mut r = text_of("politician/trading?page=");
                push_decimal(&mut r, *p as u64);
                match t {
                    Some(a) => {
                        r.append("&asset_type=");
                        r.append(a.name());
                    },
                    None => {},
                }
                r
            },
        }
    }
}

} // verus!
