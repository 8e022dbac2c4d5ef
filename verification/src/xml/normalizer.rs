//! Conversion of a raw invoice into the strict invoice model.

use super::parser::{
    raw_classification_views, XmlCounterpart, XmlCounterpartView, XmlIncomeClassification,
    XmlIncomeClassificationView, XmlInvoice, XmlInvoiceRow, XmlInvoiceSummaryView, XmlInvoiceView,
};
use crate::date::{date_parse, CalendarDate, ISO_DATE_FORMAT};
use crate::domain::classification::{
    classification_views, IncomeClassification, IncomeClassificationView,
};
use crate::domain::enums::{InvoiceType, VatCategory};
use crate::domain::invoice::{
    line_views, Counterpart, CounterpartView, Invoice, InvoiceHeader, InvoiceHeaderView,
    InvoiceLine, InvoiceLineView, InvoiceView, Issuer, IssuerView,
};
use crate::domain::totals::InvoiceTotals;
use crate::text::{clone_opt, debug_of, debug_text, i32_to_text, int_text};
use vstd::prelude::*;
use vstd::string::*;

verus! {

/// Currency of an invoice that names none.
pub const DEFAULT_CURRENCY: &'static str = "EUR";

/// Description given to every normalized line.
pub const LINE_DESCRIPTION: &'static str = "From XML";

/// The text of an optional string, empty where it is absent.
pub open spec fn text_or_empty(o: Option<Seq<char>>) -> Seq<char> {
    match o {
        Some(s) => s,
        None => Seq::empty(),
    }
}

/// Why a raw row cannot be normalized, if it cannot: its net value has no
/// exact decimal, or its VAT amount has none, or its VAT category code is
/// unknown, tested in this order.
pub open spec fn row_error(row: XmlInvoiceRow) -> Option<Seq<char>> {
    if row.net_value is None {
        Some("Invalid net value on line "@ + int_text(row.line_number as int))
    } else if row.vat_amount is None {
        Some("Invalid vat amount on line "@ + int_text(row.line_number as int))
    } else if VatCategory::of_code(row.vat_category as int) is None {
        Some(
            "Invalid VAT category "@ + int_text(row.vat_category as int) + " on line "@ + int_text(
                row.line_number as int,
            ),
        )
    } else {
        None
    }
}

/// The error of the first of the first `n` rows that cannot be normalized.
pub open spec fn rows_error(rows: Seq<XmlInvoiceRow>, n: nat) -> Option<Seq<char>>
    decreases n,
{
    if n == 0 {
        None
    } else {
        match rows_error(rows, (n - 1) as nat) {
            Some(e) => Some(e),
            None => row_error(rows[n - 1]),
        }
    }
}

/// The line that a raw row without error becomes.
pub open spec fn normalized_line(row: XmlInvoiceRow) -> InvoiceLineView {
    InvoiceLineView {
        line_number: row.line_number,
        description: LINE_DESCRIPTION@,
        net_value: row.net_value->0,
        vat_category: VatCategory::of_code(row.vat_category as int)->0,
        vat_amount: row.vat_amount->0,
        quantity: None,
        measurement_unit: None,
    }
}

/// Why a raw classification cannot be normalized, if it cannot: its amount
/// has no exact decimal.
pub open spec fn classification_error(item: XmlIncomeClassificationView) -> Option<Seq<char>> {
    if item.amount is None {
        Some(
            "Invalid classification amount for type "@ + debug_text(item.classification_type)
                + " category "@ + debug_text(item.classification_category),
        )
    } else {
        None
    }
}

/// The error of the first of the first `n` classifications that cannot be
/// normalized.
pub open spec fn classifications_error(
    list: Seq<XmlIncomeClassificationView>,
    n: nat,
) -> Option<Seq<char>>
    decreases n,
{
    if n == 0 {
        None
    } else {
        match classifications_error(list, (n - 1) as nat) {
            Some(e) => Some(e),
            None => classification_error(list[n - 1]),
        }
    }
}

/// The classification that a raw classification without error becomes.
pub open spec fn normalized_classification(
    item: XmlIncomeClassificationView,
) -> IncomeClassificationView {
    IncomeClassificationView {
        classification_type: item.classification_type,
        classification_category: item.classification_category,
        amount: item.amount->0,
    }
}

/// The raw classifications of a summary; none where the block is absent.
pub open spec fn raw_classifications(summary: XmlInvoiceSummaryView) -> Seq<
    XmlIncomeClassificationView,
> {
    match summary.income_classification {
        Some(list) => list,
        None => Seq::empty(),
    }
}

/// Why the totals cannot be normalized, if they cannot: one of the seven
/// totals has no exact decimal. They are tested in the order net, VAT,
/// withheld, fees, stamp duty, deductions, gross, and the message names the
/// first that fails.
pub open spec fn totals_error(summary: XmlInvoiceSummaryView) -> Option<Seq<char>> {
    if summary.total_net_value is None {
        Some("Invalid total_net_value"@)
    } else if summary.total_vat_amount is None {
        Some("Invalid total_vat_amount"@)
    } else if summary.total_withheld_amount is None {
        Some("Invalid total_withheld_amount"@)
    } else if summary.total_fees_amount is None {
        Some("Invalid total_fees_amount"@)
    } else if summary.total_stamp_duty_amount is None {
        Some("Invalid total_stamp_duty_amount"@)
    } else if summary.total_deductions_amount is None {
        Some("Invalid total_deductions_amount"@)
    } else if summary.total_gross_value is None {
        Some("Invalid total_gross_value"@)
    } else {
        None
    }
}

/// The totals of a summary without error, each as it stands in the summary.
pub open spec fn normalized_totals(summary: XmlInvoiceSummaryView) -> InvoiceTotals {
    InvoiceTotals {
        total_net_amount: summary.total_net_value->0,
        total_vat_amount: summary.total_vat_amount->0,
        total_withheld_amount: summary.total_withheld_amount->0,
        total_fees_amount: summary.total_fees_amount->0,
        total_stamp_duty_amount: summary.total_stamp_duty_amount->0,
        total_deductions_amount: summary.total_deductions_amount->0,
        total_gross_amount: summary.total_gross_value->0,
    }
}

/// The counterpart that a raw counterpart becomes: absent fields fall back
/// to the empty text and to branch zero.
pub open spec fn normalized_counterpart(cp: XmlCounterpartView) -> CounterpartView {
    CounterpartView {
        vat_number: text_or_empty(cp.vat_number),
        country: text_or_empty(cp.country),
        branch: match cp.branch {
            Some(b) => b,
            None => 0i32,
        },
        name: cp.name,
    }
}

/// Why a raw invoice cannot be normalized, if it cannot. The failures are
/// tested in this order: the issue date, the issuer, the rows in order, the
/// totals, the classifications in order.
pub open spec fn normalize_error(raw: XmlInvoiceView) -> Option<Seq<char>> {
    let parsed = date_parse(raw.invoice_header.issue_date, ISO_DATE_FORMAT@);
    if parsed is Err {
        Some("Invalid date format: "@ + parsed->Err_0)
    } else if raw.issuer is None {
        Some("Missing issuer"@)
    } else if rows_error(raw.invoice_details, raw.invoice_details.len()) is Some {
        rows_error(raw.invoice_details, raw.invoice_details.len())
    } else if totals_error(raw.invoice_summary) is Some {
        totals_error(raw.invoice_summary)
    } else {
        classifications_error(
            raw_classifications(raw.invoice_summary),
            raw_classifications(raw.invoice_summary).len(),
        )
    }
}

/// The invoice that a raw invoice without error becomes.
pub open spec fn normalized(raw: XmlInvoiceView) -> InvoiceView {
    InvoiceView {
        uid: None,
        header: InvoiceHeaderView {
            series: raw.invoice_header.series,
            aa: raw.invoice_header.aa,
            issue_date: date_parse(raw.invoice_header.issue_date, ISO_DATE_FORMAT@)->Ok_0,
            issue_time: None,
            invoice_type: InvoiceType::of_code(raw.invoice_header.invoice_type),
            currency: match raw.invoice_header.currency {
                Some(c) => c,
                None => DEFAULT_CURRENCY@,
            },
            exchange_rate: None,
        },
        issuer: IssuerView {
            vat_number: raw.issuer->0.vat_number,
            country: raw.issuer->0.country,
            branch: raw.issuer->0.branch,
        },
        counterpart: match raw.counterpart {
            Some(cp) => Some(normalized_counterpart(cp)),
            None => None,
        },
        lines: Seq::new(
            raw.invoice_details.len(),
            |i: int| normalized_line(raw.invoice_details[i]),
        ),
        totals: normalized_totals(raw.invoice_summary),
        vat_breakdown: Seq::empty(),
        income_classifications: Seq::new(
            raw_classifications(raw.invoice_summary).len(),
            |i: int| normalized_classification(raw_classifications(raw.invoice_summary)[i]),
        ),
    }
}

/// Converts raw invoices into the strict invoice model.
pub struct Normalizer;

impl Normalizer {
    /// Converts a raw invoice. It fails, with a message that names the
    /// offending part, on a malformed issue date, a missing issuer, a number
    /// without exact decimal in a row, in any of the seven totals or in a
    /// classification, and on an unknown VAT category code. An unknown
    /// invoice type code is no failure.
    pub fn normalize(xml_invoice: XmlInvoice) -> (r: Result<Invoice, String>)
        ensures
            match r {
                Ok(invoice) => normalize_error(xml_invoice@) is None && invoice@ == normalized(
                    xml_invoice@,
                ),
                Err(e) => normalize_error(xml_invoice@) == Some(e@),
            },
    {
        let ghost raw = xml_invoice@;
        let XmlInvoice {
            issuer,
            counterpart,
            invoice_header,
            payment_methods: _,
            invoice_details,
            invoice_summary,
        } = xml_invoice;
        let issue_date = match CalendarDate::parse(invoice_header.issue_date.as_str()) {
            Ok(d) => d,
            Err(e) => {
                return Err(String::from_str("Invalid date format: ").concat(e.as_str()));
            },
        };
        let invoice_type = InvoiceType::from_code(invoice_header.invoice_type.as_str());
        let currency = match invoice_header.currency {
            Some(c) => c,
            None => DEFAULT_CURRENCY.to_owned(),
        };
        let header = InvoiceHeader {
            series: invoice_header.series,
            aa: invoice_header.aa,
            issue_date,
            issue_time: None,
            invoice_type,
            currency,
            exchange_rate: None,
        };
        let issuer = match issuer {
            Some(i) => Issuer { vat_number: i.vat_number, country: i.country, branch: i.branch },
            None => {
                return Err("Missing issuer".to_owned());
            },
        };
        let counterpart = match counterpart {
            Some(cp) => Some(Self::normalize_counterpart(cp)),
            None => None,
        };
        let lines = match Self::normalize_rows(&invoice_details) {
            Ok(lines) => lines,
            Err(e) => {
                return Err(e);
            },
        };
        let summary = invoice_summary;
        let total_net_amount = match summary.total_net_value {
            Some(a) => a,
            None => {
                return Err("Invalid total_net_value".to_owned());
            },
        };
        let total_vat_amount = match summary.total_vat_amount {
            Some(a) => a,
            None => {
                return Err("Invalid total_vat_amount".to_owned());
            },
        };
        let total_withheld_amount = match summary.total_withheld_amount {
            Some(a) => a,
            None => {
                return Err("Invalid total_withheld_amount".to_owned());
            },
        };
        let total_fees_amount = match summary.total_fees_amount {
            Some(a) => a,
            None => {
                return Err("Invalid total_fees_amount".to_owned());
            },
        };
        let total_stamp_duty_amount = match summary.total_stamp_duty_amount {
            Some(a) => a,
            None => {
                return Err("Invalid total_stamp_duty_amount".to_owned());
            },
        };
        let total_deductions_amount = match summary.total_deductions_amount {
            Some(a) => a,
            None => {
                return Err("Invalid total_deductions_amount".to_owned());
            },
        };
        let total_gross_amount = match summary.total_gross_value {
            Some(a) => a,
            None => {
                return Err("Invalid total_gross_value".to_owned());
            },
        };
        let totals = InvoiceTotals {
            total_net_amount,
            total_vat_amount,
            total_withheld_amount,
            total_fees_amount,
            total_stamp_duty_amount,
            total_deductions_amount,
            total_gross_amount,
        };
        let income_classifications = match summary.income_classification {
            Some(list) => {
                match Self::normalize_classifications(&list) {
                    Ok(items) => items,
                    Err(e) => {
                        return Err(e);
                    },
                }
            },
            None => Vec::new(),
        };
        let invoice = Invoice {
            uid: None,
            header,
            issuer,
            counterpart,
            lines,
            totals,
            vat_breakdown: Vec::new(),
            income_classifications,
        };
        proof {
            assert(invoice@.income_classifications =~= normalized(raw).income_classifications);
        }
        Ok(invoice)
    }

    /// Fills the absent fields of a raw counterpart.
    fn normalize_counterpart(cp: XmlCounterpart) -> (c: Counterpart)
        ensures
            c@ == normalized_counterpart(cp@),
    {
        Counterpart {
            vat_number: match cp.vat_number {
                Some(s) => s,
                None => String::new(),
            },
            country: match cp.country {
                Some(s) => s,
                None => String::new(),
            },
            branch: match cp.branch {
                Some(b) => b,
                None => 0,
            },
            name: cp.name,
        }
    }

    /// Converts the rows in order and stops at the first that fails.
    fn normalize_rows(rows: &Vec<XmlInvoiceRow>) -> (r: Result<Vec<InvoiceLine>, String>)
        ensures
            match r {
                Ok(lines) => {
                    &&& rows_error(rows@, rows@.len()) is None
                    &&& line_views(lines@) == Seq::new(
                        rows@.len(),
                        |i: int| normalized_line(rows@[i]),
                    )
                },
                Err(e) => rows_error(rows@, rows@.len()) == Some(e@),
            },
    {
        let mut lines: Vec<InvoiceLine> = Vec::new();
        let mut i: usize = 0;
        while i < rows.len()
            invariant
                0 <= i <= rows.len(),
                rows_error(rows@, i as nat) is None,
                lines@.len() == i,
                forall|k: int| 0 <= k < i ==> (#[trigger] lines@[k])@ == normalized_line(rows@[k]),
            decreases rows.len() - i,
        {
            let row = &rows[i];
            let net = match row.net_value {
                Some(a) => a,
                None => {
                    let number = i32_to_text(row.line_number);
                    let e = String::from_str("Invalid net value on line ").concat(number.as_str());
                    proof {
                        Self::lemma_rows_error_found(rows@, (i + 1) as nat, rows@.len());
                    }
                    return Err(e);
                },
            };
            let vat_amount = match row.vat_amount {
                Some(a) => a,
                None => {
                    let number = i32_to_text(row.line_number);
                    let e = String::from_str("Invalid vat amount on line ").concat(number.as_str());
                    proof {
                        Self::lemma_rows_error_found(rows@, (i + 1) as nat, rows@.len());
                    }
                    return Err(e);
                },
            };
            let vat_category = match VatCategory::from_code(row.vat_category) {
                Some(c) => c,
                None => {
                    let category = i32_to_text(row.vat_category);
                    let number = i32_to_text(row.line_number);
                    let mut e = String::from_str("Invalid VAT category ");
                    e.append(category.as_str());
                    e.append(" on line ");
                    e.append(number.as_str());
                    proof {
                        Self::lemma_rows_error_found(rows@, (i + 1) as nat, rows@.len());
                    }
                    return Err(e);
                },
            };
            lines.push(
                InvoiceLine {
                    line_number: row.line_number,
                    description: LINE_DESCRIPTION.to_owned(),
                    net_value: net,
                    vat_category,
                    vat_amount,
                    quantity: None,
                    measurement_unit: None,
                },
            );
            i = i + 1;
        }
        Ok(lines)
    }

    /// An error among the first `n` rows is the error among any longer
    /// prefix of the rows.
    proof fn lemma_rows_error_found(rows: Seq<XmlInvoiceRow>, n: nat, m: nat)
        requires
            n <= m,
            rows_error(rows, n) is Some,
        ensures
            rows_error(rows, m) == rows_error(rows, n),
        decreases m,
    {
        if n < m {
            Self::lemma_rows_error_found(rows, n, (m - 1) as nat);
        }
    }

    /// Converts the classifications in order and stops at the first that
    /// fails.
    fn normalize_classifications(list: &Vec<XmlIncomeClassification>) -> (r: Result<
        Vec<IncomeClassification>,
        String,
    >)
        ensures
            match r {
                Ok(items) => {
                    &&& classifications_error(raw_classification_views(list@), list@.len()) is None
                    &&& classification_views(items@) == Seq::new(
                        list@.len(),
                        |i: int| normalized_classification(raw_classification_views(list@)[i]),
                    )
                },
                Err(e) => classifications_error(raw_classification_views(list@), list@.len())
                    == Some(e@),
            },
    {
        let ghost views = raw_classification_views(list@);
        let mut items: Vec<IncomeClassification> = Vec::new();
        let mut i: usize = 0;
        while i < list.len()
            invariant
                0 <= i <= list.len(),
                views == raw_classification_views(list@),
                classifications_error(views, i as nat) is None,
                items@.len() == i,
                forall|k: int|
                    0 <= k < i ==> (#[trigger] items@[k])@ == normalized_classification(views[k]),
            decreases list.len() - i,
        {
            let item = &list[i];
            let amount = match item.amount {
                Some(a) => a,
                None => {
                    let type_text = debug_of(&item.classification_type);
                    let category_text = debug_of(&item.classification_category);
                    let mut e = String::from_str("Invalid classification amount for type ");
                    e.append(type_text.as_str());
                    e.append(" category ");
                    e.append(category_text.as_str());
                    proof {
                        Self::lemma_classifications_error_found(
                            views,
                            (i + 1) as nat,
                            list@.len(),
                        );
                    }
                    return Err(e);
                },
            };
            items.push(
                IncomeClassification {
                    classification_type: clone_opt(&item.classification_type),
                    classification_category: clone_opt(&item.classification_category),
                    amount,
                },
            );
            i = i + 1;
        }
        Ok(items)
    }

    /// An error among the first `n` classifications is the error among any
    /// longer prefix of them.
    proof fn lemma_classifications_error_found(
        list: Seq<XmlIncomeClassificationView>,
        n: nat,
        m: nat,
    )
        requires
            n <= m,
            classifications_error(list, n) is Some,
        ensures
            classifications_error(list, m) == classifications_error(list, n),
        decreases m,
    {
        if n < m {
            Self::lemma_classifications_error_found(list, n, (m - 1) as nat);
        }
    }
}

} // verus!
