//! Validation of raw invoices from start to finish, and the result that a
//! batch reports of each file.

use crate::date::CalendarDate;
use crate::domain::invoice::Invoice;
use crate::text::opt_text;
use crate::validation::business_rules::{rule_source, validated, BusinessRules};
use crate::validation::result::{ReportView, ValidationReport};
use crate::validation::rules_engine::RulesEngine;
use crate::xml::normalizer::{normalize_error, normalized, Normalizer};
use crate::xml::parser::XmlInvoice;
use vstd::prelude::*;
use vstd::string::*;

verus! {

/// Status of a file whose document was read and validated.
pub const STATUS_SUCCESS: &'static str = "success";

/// Status of a file that could not be read, parsed or normalized.
pub const STATUS_ERROR: &'static str = "error";

/// What a batch reports of one file.
#[derive(Clone, Debug)]
pub struct BatchFileResult {
    pub filename: String,
    pub status: String,
    pub reports: Vec<ValidationReport>,
    pub error_message: Option<String>,
}

/// Mathematical view of a [`BatchFileResult`].
pub struct BatchFileResultView {
    pub filename: Seq<char>,
    pub status: Seq<char>,
    pub reports: Seq<ReportView>,
    pub error_message: Option<Seq<char>>,
}

/// The views of a list of reports.
pub open spec fn report_views(reports: Seq<ValidationReport>) -> Seq<ReportView> {
    Seq::new(reports.len(), |i: int| reports[i]@)
}

impl View for BatchFileResult {
    type V = BatchFileResultView;

    open spec fn view(&self) -> BatchFileResultView {
        BatchFileResultView {
            filename: self.filename@,
            status: self.status@,
            reports: report_views(self.reports@),
            error_message: opt_text(self.error_message),
        }
    }
}

/// What is reported of a file with the given outcome: its reports under the
/// status `success`, or its failure under the status `error` with no
/// report.
pub open spec fn file_result(
    filename: Seq<char>,
    outcome: Result<Seq<ReportView>, Seq<char>>,
) -> BatchFileResultView {
    match outcome {
        Ok(reports) => BatchFileResultView {
            filename,
            status: STATUS_SUCCESS@,
            reports,
            error_message: None,
        },
        Err(e) => BatchFileResultView {
            filename,
            status: STATUS_ERROR@,
            reports: Seq::empty(),
            error_message: Some(e),
        },
    }
}

/// The view of the outcome of a file.
pub open spec fn outcome_view(outcome: Result<Vec<ValidationReport>, String>) -> Result<
    Seq<ReportView>,
    Seq<char>,
> {
    match outcome {
        Ok(reports) => Ok(report_views(reports@)),
        Err(e) => Err(e@),
    }
}

impl BatchFileResult {
    /// The result of a file whose text was read, with the outcome of its
    /// validation.
    pub fn from_outcome(filename: String, outcome: Result<Vec<ValidationReport>, String>) -> (r:
        BatchFileResult)
        ensures
            r@ == file_result(filename@, outcome_view(outcome)),
    {
        match outcome {
            Ok(reports) => BatchFileResult {
                filename,
                status: STATUS_SUCCESS.to_owned(),
                reports,
                error_message: None,
            },
            Err(e) => {
                let r = BatchFileResult {
                    filename,
                    status: STATUS_ERROR.to_owned(),
                    reports: Vec::new(),
                    error_message: Some(e),
                };
                assert(r@.reports =~= Seq::<ReportView>::empty());
                r
            },
        }
    }

    /// The result of a file whose text could not be read, for the given
    /// cause.
    pub fn unreadable(filename: String, cause: &str) -> (r: BatchFileResult)
        ensures
            r@ == file_result(
                filename@,
                Err::<Seq<ReportView>, Seq<char>>("Failed to read file content: "@ + cause@),
            ),
    {
        let message = String::from_str("Failed to read file content: ").concat(cause);
        let r = BatchFileResult {
            filename,
            status: STATUS_ERROR.to_owned(),
            reports: Vec::new(),
            error_message: Some(message),
        };
        assert(r@.reports =~= Seq::<ReportView>::empty());
        r
    }
}

/// Normalizes and validates one raw invoice. A raw invoice that cannot be
/// normalized gives the reason, marked as a normalization failure, and no
/// report; any other gives its invoice and the report of its validation on
/// the current date.
pub fn process_invoice(xml_invoice: XmlInvoice, rules: &Result<RulesEngine, String>) -> (r: Result<
    (Invoice, ValidationReport),
    String,
>)
    ensures
        match r {
            Ok((invoice, report)) => {
                &&& normalize_error(xml_invoice@) is None
                &&& invoice@ == normalized(xml_invoice@)
                &&& exists|today: CalendarDate|
                    report@ == validated(invoice@, rule_source(*rules), today)
            },
            Err(e) => {
                &&& normalize_error(xml_invoice@) is Some
                &&& e@ == "Normalization Failed: "@ + normalize_error(xml_invoice@)->0
            },
        },
{
    match Normalizer::normalize(xml_invoice) {
        Ok(invoice) => {
            let report = BusinessRules::validate(&invoice, rules);
            Ok((invoice, report))
        },
        Err(e) => Err(String::from_str("Normalization Failed: ").concat(e.as_str())),
    }
}

} // verus!
