//! Raw, loosely typed invoice records. A raw number is the exact decimal of
//! the number in the document, or nothing where the number has none.

use crate::decimal::Amount;
use crate::text::opt_text;
use vstd::prelude::*;

verus! {

/// A document of raw invoices.
#[derive(Debug)]
pub struct AadeBook {
    pub invoices: Vec<XmlInvoice>,
}

/// Raw issuer block.
#[derive(Debug)]
pub struct XmlIssuer {
    pub vat_number: String,
    pub country: String,
    pub branch: i32,
}

/// Mathematical view of an [`XmlIssuer`].
pub struct XmlIssuerView {
    pub vat_number: Seq<char>,
    pub country: Seq<char>,
    pub branch: i32,
}

impl View for XmlIssuer {
    type V = XmlIssuerView;

    open spec fn view(&self) -> XmlIssuerView {
        XmlIssuerView { vat_number: self.vat_number@, country: self.country@, branch: self.branch }
    }
}

/// Raw counterpart block; every field may be absent.
#[derive(Debug)]
pub struct XmlCounterpart {
    pub vat_number: Option<String>,
    pub country: Option<String>,
    pub branch: Option<i32>,
    pub name: Option<String>,
}

/// Mathematical view of an [`XmlCounterpart`].
pub struct XmlCounterpartView {
    pub vat_number: Option<Seq<char>>,
    pub country: Option<Seq<char>>,
    pub branch: Option<i32>,
    pub name: Option<Seq<char>>,
}

impl View for XmlCounterpart {
    type V = XmlCounterpartView;

    open spec fn view(&self) -> XmlCounterpartView {
        XmlCounterpartView {
            vat_number: opt_text(self.vat_number),
            country: opt_text(self.country),
            branch: self.branch,
            name: opt_text(self.name),
        }
    }
}

/// Raw invoice header.
#[derive(Debug)]
pub struct XmlInvoiceHeader {
    pub series: String,
    pub aa: String,
    pub issue_date: String,
    pub invoice_type: String,
    pub currency: Option<String>,
}

/// Mathematical view of an [`XmlInvoiceHeader`].
pub struct XmlInvoiceHeaderView {
    pub series: Seq<char>,
    pub aa: Seq<char>,
    pub issue_date: Seq<char>,
    pub invoice_type: Seq<char>,
    pub currency: Option<Seq<char>>,
}

impl View for XmlInvoiceHeader {
    type V = XmlInvoiceHeaderView;

    open spec fn view(&self) -> XmlInvoiceHeaderView {
        XmlInvoiceHeaderView {
            series: self.series@,
            aa: self.aa@,
            issue_date: self.issue_date@,
            invoice_type: self.invoice_type@,
            currency: opt_text(self.currency),
        }
    }
}

/// Raw line row.
#[derive(Clone, Copy, Debug)]
pub struct XmlInvoiceRow {
    pub line_number: i32,
    pub net_value: Option<Amount>,
    pub vat_category: i32,
    pub vat_amount: Option<Amount>,
}

/// Raw income classification entry.
#[derive(Debug)]
pub struct XmlIncomeClassification {
    pub classification_type: Option<String>,
    pub classification_category: Option<String>,
    pub amount: Option<Amount>,
}

/// Mathematical view of an [`XmlIncomeClassification`].
pub struct XmlIncomeClassificationView {
    pub classification_type: Option<Seq<char>>,
    pub classification_category: Option<Seq<char>>,
    pub amount: Option<Amount>,
}

impl View for XmlIncomeClassification {
    type V = XmlIncomeClassificationView;

    open spec fn view(&self) -> XmlIncomeClassificationView {
        XmlIncomeClassificationView {
            classification_type: opt_text(self.classification_type),
            classification_category: opt_text(self.classification_category),
            amount: self.amount,
        }
    }
}

/// The views of a list of raw classifications.
pub open spec fn raw_classification_views(list: Seq<XmlIncomeClassification>) -> Seq<
    XmlIncomeClassificationView,
> {
    Seq::new(list.len(), |i: int| list[i]@)
}

/// Raw summary block.
#[derive(Debug)]
pub struct XmlInvoiceSummary {
    pub total_net_value: Option<Amount>,
    pub total_vat_amount: Option<Amount>,
    pub total_withheld_amount: Option<Amount>,
    pub total_fees_amount: Option<Amount>,
    pub total_stamp_duty_amount: Option<Amount>,
    pub total_deductions_amount: Option<Amount>,
    pub total_gross_value: Option<Amount>,
    pub income_classification: Option<Vec<XmlIncomeClassification>>,
}

/// Mathematical view of an [`XmlInvoiceSummary`].
pub struct XmlInvoiceSummaryView {
    pub total_net_value: Option<Amount>,
    pub total_vat_amount: Option<Amount>,
    pub total_withheld_amount: Option<Amount>,
    pub total_fees_amount: Option<Amount>,
    pub total_stamp_duty_amount: Option<Amount>,
    pub total_deductions_amount: Option<Amount>,
    pub total_gross_value: Option<Amount>,
    pub income_classification: Option<Seq<XmlIncomeClassificationView>>,
}

impl View for XmlInvoiceSummary {
    type V = XmlInvoiceSummaryView;

    open spec fn view(&self) -> XmlInvoiceSummaryView {
        XmlInvoiceSummaryView {
            total_net_value: self.total_net_value,
            total_vat_amount: self.total_vat_amount,
            total_withheld_amount: self.total_withheld_amount,
            total_fees_amount: self.total_fees_amount,
            total_stamp_duty_amount: self.total_stamp_duty_amount,
            total_deductions_amount: self.total_deductions_amount,
            total_gross_value: self.total_gross_value,
            income_classification: match self.income_classification {
                Some(list) => Some(raw_classification_views(list@)),
                None => None,
            },
        }
    }
}

/// Raw detail of one payment.
#[derive(Debug)]
pub struct XmlPaymentMethodDetail {
    pub method_type: i32,
    pub amount: Option<Amount>,
    pub payment_method_info: Option<String>,
}

/// Mathematical view of an [`XmlPaymentMethodDetail`].
pub struct XmlPaymentMethodDetailView {
    pub method_type: i32,
    pub amount: Option<Amount>,
    pub payment_method_info: Option<Seq<char>>,
}

impl View for XmlPaymentMethodDetail {
    type V = XmlPaymentMethodDetailView;

    open spec fn view(&self) -> XmlPaymentMethodDetailView {
        XmlPaymentMethodDetailView {
            method_type: self.method_type,
            amount: self.amount,
            payment_method_info: opt_text(self.payment_method_info),
        }
    }
}

/// Raw payment block.
#[derive(Debug)]
pub struct XmlPaymentMethods {
    pub payment_method_details: Vec<XmlPaymentMethodDetail>,
}

/// Mathematical view of an [`XmlPaymentMethods`]: the views of its details,
/// in order.
pub struct XmlPaymentMethodsView {
    pub payment_method_details: Seq<XmlPaymentMethodDetailView>,
}

impl View for XmlPaymentMethods {
    type V = XmlPaymentMethodsView;

    open spec fn view(&self) -> XmlPaymentMethodsView {
        XmlPaymentMethodsView {
            payment_method_details: Seq::new(
                self.payment_method_details@.len(),
                |i: int| self.payment_method_details@[i]@,
            ),
        }
    }
}

/// One raw invoice.
#[derive(Debug)]
pub struct XmlInvoice {
    pub issuer: Option<XmlIssuer>,
    pub counterpart: Option<XmlCounterpart>,
    pub invoice_header: XmlInvoiceHeader,
    pub payment_methods: Option<XmlPaymentMethods>,
    pub invoice_details: Vec<XmlInvoiceRow>,
    pub invoice_summary: XmlInvoiceSummary,
}

/// Mathematical view of an [`XmlInvoice`].
pub struct XmlInvoiceView {
    pub issuer: Option<XmlIssuerView>,
    pub counterpart: Option<XmlCounterpartView>,
    pub invoice_header: XmlInvoiceHeaderView,
    pub payment_methods: Option<XmlPaymentMethodsView>,
    pub invoice_details: Seq<XmlInvoiceRow>,
    pub invoice_summary: XmlInvoiceSummaryView,
}

impl View for XmlInvoice {
    type V = XmlInvoiceView;

    open spec fn view(&self) -> XmlInvoiceView {
        XmlInvoiceView {
            issuer: match self.issuer {
                Some(i) => Some(i@),
                None => None,
            },
            counterpart: match self.counterpart {
                Some(c) => Some(c@),
                None => None,
            },
            invoice_header: self.invoice_header@,
            payment_methods: match self.payment_methods {
                Some(p) => Some(p@),
                None => None,
            },
            invoice_details: self.invoice_details@,
            invoice_summary: self.invoice_summary@,
        }
    }
}

} // verus!
