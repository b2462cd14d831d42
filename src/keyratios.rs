//! Records of key ratios.

use vstd::prelude::*;

verus! {

/// Basic data of the key-ratio report.
#[derive(Debug)]
pub struct Basic {
    pub price_updated_time: String,
    pub company: String,
}

} // verus!
