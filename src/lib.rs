//! Typed client binding for the GuruFocus financial-data REST API.
//!
//! The library builds the URLs of requests, interprets the server's
//! replies, and decides how the loosely typed scalars of those replies are
//! read. Sending requests is left to the caller.

pub mod connector;
pub mod date;
pub mod decimal;
pub mod financials;
pub mod gurus;
pub mod hexnum;
pub mod json;
pub mod keyratios;
pub mod request;
pub mod scalar;
pub mod stock;
pub mod strnum;

pub use connector::{decode_response, GuruFocusConnector, GuruFocusError};
pub use financials::FinancialTemplateParameters;
pub use gurus::{AssetType, Politician};
pub use hexnum::HexNum;
pub use keyratios::Basic;
pub use request::{compact_list, Endpoint};
pub use stock::{
    CompanyDescription, Country, GoodDetails, GuruTransaction, IndustryDetails, Stock,
    WarningDetails,
};
