//! Records about single stocks.

use vstd::prelude::*;

verus! {

/// Basic data of a single stock.
#[derive(Debug)]
pub struct Stock {
    /// Name of the company.
    pub company: String,
    /// Currency in which the stock is quoted.
    pub currency: String,
    /// ID of the exchange the stock is quoted at.
    pub exchange: String,
    /// Main industry the company operates in.
    pub industry: String,
    /// Industry sector the company belongs to.
    pub sector: String,
    /// Main subindustry the company operates in.
    pub subindustry: String,
    /// Stock ticker symbol.
    pub symbol: String,
}

/// Counts of the transactions that gurus made in a stock.
#[derive(Debug)]
pub struct GuruTransaction {
    pub buy: i64,
    pub hold: i64,
    pub new_buy: i64,
    pub sell: i64,
    pub sold_out: i64,
}

/// Details of a specific warning sign.
#[derive(Debug)]
pub struct WarningDetails {
    pub category: Option<String>,
    pub degree: String,
    pub details: String,
    pub display: String,
    pub name: String,
}

/// Details of a specific good sign.
#[derive(Debug)]
pub struct GoodDetails {
    pub category: Option<String>,
    pub details: String,
    pub display: String,
    pub name: String,
}

/// Address and related company information.
#[derive(Debug)]
pub struct CompanyDescription {
    pub address: String,
    pub descrpt: String,
    pub morn_comp_id: Option<String>,
    pub short_descript: String,
    pub symbol: Option<String>,
    pub website: String,
}

/// Country and exchange information.
#[derive(Debug)]
pub struct Country {
    pub country: String,
    pub exchange: String,
    pub symbol: String,
}

/// Industry classification of a company.
#[derive(Debug)]
pub struct IndustryDetails {
    pub group: String,
    pub groupcode: i64,
    pub industry: String,
    pub industrycode: i64,
    pub sector: String,
    pub sectorcode: i64,
    pub date: String,
}

} // verus!
