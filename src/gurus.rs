//! Records about gurus and politicians.

use vstd::prelude::*;

verus! {

/// A politician whose trades the service tracks.
#[derive(Debug)]
pub struct Politician {
    /// Unique identifier of the politician.
    pub id: u32,
    /// Full name of the politician.
    pub full_name: String,
    /// The politician's current position.
    pub position: String,
    /// The political party the politician is a member of.
    pub party: String,
    /// The politician's election district.
    pub district: Option<String>,
    /// The politician's state.
    pub state: String,
}

/// Asset type traded by politicians.
#[derive(Clone, Copy, Debug, PartialEq, Eq, Structural)]
pub enum AssetType {
    CommonStock,
    Option,
    Etf,
    PreferredStock,
    Bond,
    Units,
    Warrant,
    Other,
}

/// The name under which the service writes each asset type.
pub open spec fn asset_type_name(t: AssetType) -> Seq<char> {
    match t {
        AssetType::CommonStock => "Common Stock"@,
        AssetType::Option => "Option"@,
        AssetType::Etf => "ETF"@,
        AssetType::PreferredStock => "Preferred Stock"@,
        AssetType::Bond => "Bond"@,
        AssetType::Units => "Units"@,
        AssetType::Warrant => "Warrant"@,
        AssetType::Other => "Other"@,
    }
}

impl AssetType {
    /// The name under which the service writes this asset type.
    pub fn name(&self) -> (r: &'static str)
        ensures
            r@ == asset_type_name(*self),
    {
        match self {
            AssetType::CommonStock => "Common Stock",
            AssetType::Option => "Option",
            AssetType::Etf => "ETF",
            AssetType::PreferredStock => "Preferred Stock",
            AssetType::Bond => "Bond",
            AssetType::Units => "Units",
            AssetType::Warrant => "Warrant",
            AssetType::Other => "Other",
        }
    }
}

} // verus!
