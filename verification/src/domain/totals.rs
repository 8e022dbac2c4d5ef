//! Header totals of an invoice.

use crate::decimal::Amount;
use vstd::prelude::*;

verus! {

/// The seven aggregates declared in the invoice summary.
#[derive(Clone, Copy, Debug, PartialEq)]
pub struct InvoiceTotals {
    pub total_net_amount: Amount,
    pub total_vat_amount: Amount,
    pub total_withheld_amount: Amount,
    pub total_fees_amount: Amount,
    pub total_stamp_duty_amount: Amount,
    pub total_deductions_amount: Amount,
    pub total_gross_amount: Amount,
}

impl Default for InvoiceTotals {
    fn default() -> (t: InvoiceTotals)
        ensures
            t.total_net_amount == Amount::spec_zero(),
            t.total_vat_amount == Amount::spec_zero(),
            t.total_withheld_amount == Amount::spec_zero(),
            t.total_fees_amount == Amount::spec_zero(),
            t.total_stamp_duty_amount == Amount::spec_zero(),
            t.total_deductions_amount == Amount::spec_zero(),
            t.total_gross_amount == Amount::spec_zero(),
    {
        InvoiceTotals {
            total_net_amount: Amount::zero(),
            total_vat_amount: Amount::zero(),
            total_withheld_amount: Amount::zero(),
            total_fees_amount: Amount::zero(),
            total_stamp_duty_amount: Amount::zero(),
            total_deductions_amount: Amount::zero(),
            total_gross_amount: Amount::zero(),
        }
    }
}

} // verus!
