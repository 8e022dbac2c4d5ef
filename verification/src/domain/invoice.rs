//! The invoice aggregate and its parts.

use super::classification::{classification_views, IncomeClassification, IncomeClassificationView};
use super::enums::{InvoiceType, VatCategory};
use super::totals::InvoiceTotals;
use super::vat::VatBreakdown;
use crate::date::CalendarDate;
use crate::decimal::Amount;
use crate::text::opt_text;
use vstd::prelude::*;

verus! {

/// A time of day.
#[derive(Clone, Copy, Debug, PartialEq, Eq, Structural)]
pub struct ClockTime {
    pub hour: u32,
    pub minute: u32,
    pub second: u32,
}

/// Identification and dating of an invoice.
#[derive(Clone, Debug)]
pub struct InvoiceHeader {
    pub series: String,
    pub aa: String,
    pub issue_date: CalendarDate,
    pub issue_time: Option<ClockTime>,
    pub invoice_type: InvoiceType,
    pub currency: String,
    pub exchange_rate: Option<Amount>,
}

/// Mathematical view of an [`InvoiceHeader`].
pub struct InvoiceHeaderView {
    pub series: Seq<char>,
    pub aa: Seq<char>,
    pub issue_date: CalendarDate,
    pub issue_time: Option<ClockTime>,
    pub invoice_type: InvoiceType,
    pub currency: Seq<char>,
    pub exchange_rate: Option<Amount>,
}

impl View for InvoiceHeader {
    type V = InvoiceHeaderView;

    open spec fn view(&self) -> InvoiceHeaderView {
        InvoiceHeaderView {
            series: self.series@,
            aa: self.aa@,
            issue_date: self.issue_date,
            issue_time: self.issue_time,
            invoice_type: self.invoice_type,
            currency: self.currency@,
            exchange_rate: self.exchange_rate,
        }
    }
}

/// The party that issued the invoice.
#[derive(Clone, Debug)]
pub struct Issuer {
    pub vat_number: String,
    pub country: String,
    pub branch: i32,
}

/// Mathematical view of an [`Issuer`].
pub struct IssuerView {
    pub vat_number: Seq<char>,
    pub country: Seq<char>,
    pub branch: i32,
}

impl View for Issuer {
    type V = IssuerView;

    open spec fn view(&self) -> IssuerView {
        IssuerView { vat_number: self.vat_number@, country: self.country@, branch: self.branch }
    }
}

/// The party that receives the invoice.
#[derive(Clone, Debug)]
pub struct Counterpart {
    pub vat_number: String,
    pub country: String,
    pub branch: i32,
    pub name: Option<String>,
}

/// Mathematical view of a [`Counterpart`].
pub struct CounterpartView {
    pub vat_number: Seq<char>,
    pub country: Seq<char>,
    pub branch: i32,
    pub name: Option<Seq<char>>,
}

impl View for Counterpart {
    type V = CounterpartView;

    open spec fn view(&self) -> CounterpartView {
        CounterpartView {
            vat_number: self.vat_number@,
            country: self.country@,
            branch: self.branch,
            name: opt_text(self.name),
        }
    }
}

/// One line item of an invoice.
#[derive(Clone, Debug)]
pub struct InvoiceLine {
    pub line_number: i32,
    pub description: String,
    pub net_value: Amount,
    pub vat_category: VatCategory,
    pub vat_amount: Amount,
    pub quantity: Option<Amount>,
    pub measurement_unit: Option<i32>,
}

/// Mathematical view of an [`InvoiceLine`].
pub struct InvoiceLineView {
    pub line_number: i32,
    pub description: Seq<char>,
    pub net_value: Amount,
    pub vat_category: VatCategory,
    pub vat_amount: Amount,
    pub quantity: Option<Amount>,
    pub measurement_unit: Option<i32>,
}

impl View for InvoiceLine {
    type V = InvoiceLineView;

    open spec fn view(&self) -> InvoiceLineView {
        InvoiceLineView {
            line_number: self.line_number,
            description: self.description@,
            net_value: self.net_value,
            vat_category: self.vat_category,
            vat_amount: self.vat_amount,
            quantity: self.quantity,
            measurement_unit: self.measurement_unit,
        }
    }
}

/// The views of a list of lines.
pub open spec fn line_views(lines: Seq<InvoiceLine>) -> Seq<InvoiceLineView> {
    Seq::new(lines.len(), |i: int| lines[i]@)
}

/// The view of an optional counterpart.
pub open spec fn counterpart_view(c: Option<Counterpart>) -> Option<CounterpartView> {
    match c {
        Some(c) => Some(c@),
        None => None,
    }
}

/// A complete invoice.
#[derive(Clone, Debug)]
pub struct Invoice {
    pub uid: Option<String>,
    pub header: InvoiceHeader,
    pub issuer: Issuer,
    pub counterpart: Option<Counterpart>,
    pub lines: Vec<InvoiceLine>,
    pub totals: InvoiceTotals,
    pub vat_breakdown: Vec<VatBreakdown>,
    pub income_classifications: Vec<IncomeClassification>,
}

/// Mathematical view of an [`Invoice`].
pub struct InvoiceView {
    pub uid: Option<Seq<char>>,
    pub header: InvoiceHeaderView,
    pub issuer: IssuerView,
    pub counterpart: Option<CounterpartView>,
    pub lines: Seq<InvoiceLineView>,
    pub totals: InvoiceTotals,
    pub vat_breakdown: Seq<VatBreakdown>,
    pub income_classifications: Seq<IncomeClassificationView>,
}

impl View for Invoice {
    type V = InvoiceView;

    open spec fn view(&self) -> InvoiceView {
        InvoiceView {
            uid: opt_text(self.uid),
            header: self.header@,
            issuer: self.issuer@,
            counterpart: counterpart_view(self.counterpart),
            lines: line_views(self.lines@),
            totals: self.totals,
            vat_breakdown: self.vat_breakdown@,
            income_classifications: classification_views(self.income_classifications@),
        }
    }
}

} // verus!
