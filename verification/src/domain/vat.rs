//! Per-category VAT breakdown.

use super::enums::VatCategory;
use crate::decimal::Amount;
use vstd::prelude::*;

verus! {

/// Net and VAT amount of one VAT category.
#[derive(Clone, Copy, Debug, PartialEq)]
pub struct VatBreakdown {
    pub category: VatCategory,
    pub net_amount: Amount,
    pub vat_amount: Amount,
}

impl VatBreakdown {
    /// Builds the breakdown entry of `category`.
    pub fn new(category: VatCategory, net: Amount, vat: Amount) -> (b: VatBreakdown)
        ensures
            b.category == category,
            b.net_amount == net,
            b.vat_amount == vat,
    {
        VatBreakdown { category, net_amount: net, vat_amount: vat }
    }
}

} // verus!
