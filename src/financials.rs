//! Records of financial statements.

use vstd::prelude::*;

verus! {

/// The template under which the service reports a company's financials.
#[derive(Debug)]
pub struct FinancialTemplateParameters {
    pub ind_template: String,
    pub reits: String,
    pub is_direct: String,
    pub financial_report_frequency: String,
}

} // verus!
