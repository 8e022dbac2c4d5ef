//! The validation report and its escalation from clean to warned to
//! rejected.

use crate::text::{opt_str_text, opt_text, own_opt, texts};
use vstd::prelude::*;
use vstd::string::*;

verus! {

/// Summary of a report without findings.
pub const SUMMARY_CLEAN: &'static str = "Επιτυχής έλεγχος. Έτοιμο για υποβολή.";

/// Summary of a report with warnings only.
pub const SUMMARY_WARNED: &'static str = "Προσοχή. Υπάρχουν επισημάνσεις.";

/// Summary of a report with at least one error.
pub const SUMMARY_REJECTED: &'static str = "Απέτυχε ο έλεγχος. Διορθώστε τα σφάλματα.";

/// Risk score of a report that holds a warning.
pub const RISK_WARNED: u8 = 30;

/// Risk score of a report that holds an error.
pub const RISK_REJECTED: u8 = 100;

/// Overall outcome of a validation.
#[derive(Clone, Copy, Debug, PartialEq, Eq, Structural)]
pub enum ValidationStatus {
    /// No finding.
    Green,
    /// Warnings only; the invoice remains valid.
    Yellow,
    /// At least one error; the invoice is invalid.
    Red,
}

/// Weight of a finding.
#[derive(Clone, Copy, Debug, PartialEq, Eq, Structural)]
pub enum Severity {
    Info,
    Warning,
    Error,
}

/// One finding of a check or rule.
#[derive(Clone, Debug)]
pub struct ExplainableError {
    pub code: String,
    pub field: Option<String>,
    pub value_found: Option<String>,
    pub reason: String,
    pub allowed_values: Option<Vec<String>>,
    pub severity: Severity,
}

/// Mathematical view of an [`ExplainableError`].
pub struct ExplainableErrorView {
    pub code: Seq<char>,
    pub field: Option<Seq<char>>,
    pub value_found: Option<Seq<char>>,
    pub reason: Seq<char>,
    pub allowed_values: Option<Seq<Seq<char>>>,
    pub severity: Severity,
}

impl View for ExplainableError {
    type V = ExplainableErrorView;

    open spec fn view(&self) -> ExplainableErrorView {
        ExplainableErrorView {
            code: self.code@,
            field: opt_text(self.field),
            value_found: opt_text(self.value_found),
            reason: self.reason@,
            allowed_values: match self.allowed_values {
                Some(v) => Some(texts(v@)),
                None => None,
            },
            severity: self.severity,
        }
    }
}

/// A suggested correction.
#[derive(Clone, Debug)]
pub struct FixHint {
    pub field: String,
    pub suggestion: String,
}

/// Mathematical view of a [`FixHint`].
pub struct FixHintView {
    pub field: Seq<char>,
    pub suggestion: Seq<char>,
}

impl View for FixHint {
    type V = FixHintView;

    open spec fn view(&self) -> FixHintView {
        FixHintView { field: self.field@, suggestion: self.suggestion@ }
    }
}

/// The findings of one validation, with the status they add up to.
#[derive(Clone, Debug)]
pub struct ValidationReport {
    pub status: ValidationStatus,
    pub risk_score: u8,
    pub summary: String,
    pub errors: Vec<ExplainableError>,
    pub suggestions: Vec<FixHint>,
}

/// Mathematical view of a [`ValidationReport`].
pub struct ReportView {
    pub status: ValidationStatus,
    pub risk_score: u8,
    pub summary: Seq<char>,
    pub errors: Seq<ExplainableErrorView>,
    pub suggestions: Seq<FixHintView>,
}

impl View for ValidationReport {
    type V = ReportView;

    open spec fn view(&self) -> ReportView {
        ReportView {
            status: self.status,
            risk_score: self.risk_score,
            summary: self.summary@,
            errors: Seq::new(self.errors@.len(), |i: int| self.errors@[i]@),
            suggestions: Seq::new(self.suggestions@.len(), |i: int| self.suggestions@[i]@),
        }
    }
}

/// The finding that an error with these details is recorded as.
pub open spec fn error_finding(
    code: Seq<char>,
    message: Seq<char>,
    field: Option<Seq<char>>,
    value: Option<Seq<char>>,
) -> ExplainableErrorView {
    ExplainableErrorView {
        code,
        field,
        value_found: value,
        reason: message,
        allowed_values: None,
        severity: Severity::Error,
    }
}

/// The finding that a warning with these details is recorded as.
pub open spec fn warning_finding(code: Seq<char>, message: Seq<char>) -> ExplainableErrorView {
    ExplainableErrorView {
        code,
        field: None,
        value_found: None,
        reason: message,
        allowed_values: None,
        severity: Severity::Warning,
    }
}

impl ReportView {
    /// The report before any check has run.
    pub open spec fn clean() -> ReportView {
        ReportView {
            status: ValidationStatus::Green,
            risk_score: 0,
            summary: SUMMARY_CLEAN@,
            errors: Seq::empty(),
            suggestions: Seq::empty(),
        }
    }

    /// The report after an error: rejected, with the highest risk score, and
    /// one more finding.
    pub open spec fn with_error(
        self,
        code: Seq<char>,
        message: Seq<char>,
        field: Option<Seq<char>>,
        value: Option<Seq<char>>,
    ) -> ReportView {
        ReportView {
            status: ValidationStatus::Red,
            risk_score: RISK_REJECTED,
            summary: SUMMARY_REJECTED@,
            errors: self.errors.push(error_finding(code, message, field, value)),
            suggestions: self.suggestions,
        }
    }

    /// The report after a warning: a clean report becomes warned and its
    /// risk score rises to at least 30; any other report keeps its status,
    /// score and summary. The finding is added in both cases.
    pub open spec fn with_warning(self, code: Seq<char>, message: Seq<char>) -> ReportView {
        if self.status == ValidationStatus::Green {
            ReportView {
                status: ValidationStatus::Yellow,
                risk_score: if self.risk_score >= RISK_WARNED {
                    self.risk_score
                } else {
                    RISK_WARNED
                },
                summary: SUMMARY_WARNED@,
                errors: self.errors.push(warning_finding(code, message)),
                suggestions: self.suggestions,
            }
        } else {
            ReportView {
                status: self.status,
                risk_score: self.risk_score,
                summary: self.summary,
                errors: self.errors.push(warning_finding(code, message)),
                suggestions: self.suggestions,
            }
        }
    }

    /// Whether `later` keeps every finding of `self`, in place, and does not
    /// leave the rejected state, nor the risk score of a rejection, if
    /// `self` is in it.
    pub open spec fn extended_by(self, later: ReportView) -> bool {
        &&& self.errors.is_prefix_of(later.errors)
        &&& self.suggestions == later.suggestions
        &&& self.status == ValidationStatus::Red ==> later.status == ValidationStatus::Red
        &&& self.status == ValidationStatus::Red && self.risk_score == RISK_REJECTED
            ==> later.risk_score == RISK_REJECTED
    }

    /// Whether the risk score lies between 0 and 100.
    pub open spec fn risk_in_range(self) -> bool {
        self.risk_score <= RISK_REJECTED
    }

    /// Whether the report is valid for submission: clean or warned, not
    /// rejected.
    pub open spec fn is_valid(self) -> bool {
        self.status != ValidationStatus::Red
    }

    /// Whether some finding of the report carries the code `code`.
    pub open spec fn has_code(self, code: Seq<char>) -> bool {
        exists|i: int| 0 <= i < self.errors.len() && (#[trigger] self.errors[i]).code == code
    }
}

impl Default for ValidationReport {
    fn default() -> (report: ValidationReport)
        ensures
            report@ == ReportView::clean(),
    {
        let report = ValidationReport {
            status: ValidationStatus::Green,
            risk_score: 0,
            summary: SUMMARY_CLEAN.to_owned(),
            errors: Vec::new(),
            suggestions: Vec::new(),
        };
        assert(report@.errors =~= Seq::empty());
        assert(report@.suggestions =~= Seq::empty());
        report
    }
}

impl ValidationReport {
    /// A clean report: no finding, risk score zero.
    pub fn new() -> (report: ValidationReport)
        ensures
            report@ == ReportView::clean(),
    {
        ValidationReport::default()
    }

    /// Whether the report is valid for submission: clean or warned, not
    /// rejected.
    pub fn is_valid(&self) -> (valid: bool)
        ensures
            valid == self@.is_valid(),
    {
        self.status != ValidationStatus::Red
    }

    /// Records an error. The report becomes rejected, whatever it was.
    pub fn add_error(
        &mut self,
        code: &str,
        message: &str,
        field: Option<&str>,
        value: Option<&str>,
    )
        ensures
            final(self)@ == old(self)@.with_error(
                code@,
                message@,
                opt_str_text(field),
                opt_str_text(value),
            ),
    {
        self.status = ValidationStatus::Red;
        self.risk_score = RISK_REJECTED;
        self.summary = SUMMARY_REJECTED.to_owned();
        let finding = ExplainableError {
            code: code.to_owned(),
            field: own_opt(field),
            value_found: own_opt(value),
            reason: message.to_owned(),
            allowed_values: None,
            severity: Severity::Error,
        };
        self.errors.push(finding);
        proof {
            let expected = old(self)@.with_error(
                code@,
                message@,
                opt_str_text(field),
                opt_str_text(value),
            );
            assert(self@.errors =~= expected.errors);
        }
    }

    /// Records a warning. A clean report becomes warned; a warned or
    /// rejected report keeps its status.
    pub fn add_warning(&mut self, code: &str, message: &str)
        ensures
            final(self)@ == old(self)@.with_warning(code@, message@),
    {
        if self.status == ValidationStatus::Green {
            self.status = ValidationStatus::Yellow;
            self.summary = SUMMARY_WARNED.to_owned();
            if self.risk_score < RISK_WARNED {
                self.risk_score = RISK_WARNED;
            }
        }
        let finding = ExplainableError {
            code: code.to_owned(),
            field: None,
            value_found: None,
            reason: message.to_owned(),
            allowed_values: None,
            severity: Severity::Warning,
        };
        self.errors.push(finding);
        proof {
            let expected = old(self)@.with_warning(code@, message@);
            assert(self@.errors =~= expected.errors);
        }
    }
}

/// An error rejects the report from any state, with risk score 100, and
/// keeps the findings recorded before it.
pub proof fn lemma_error_rejects(
    r: ReportView,
    code: Seq<char>,
    message: Seq<char>,
    field: Option<Seq<char>>,
    value: Option<Seq<char>>,
)
    ensures
        r.with_error(code, message, field, value).status == ValidationStatus::Red,
        r.with_error(code, message, field, value).risk_score == 100,
        r.extended_by(r.with_error(code, message, field, value)),
        r.with_error(code, message, field, value).has_code(code),
{
    let after = r.with_error(code, message, field, value);
    assert(after.errors[r.errors.len() as int].code == code);
}

/// A warning turns a clean report into a warned one with a risk score of at
/// least 30, leaves the status of any other report alone, and keeps the
/// findings recorded before it. A rejected report stays rejected.
pub proof fn lemma_warning_escalates(r: ReportView, code: Seq<char>, message: Seq<char>)
    ensures
        r.status == ValidationStatus::Green ==> r.with_warning(code, message).status
            == ValidationStatus::Yellow && r.with_warning(code, message).risk_score >= 30,
        r.status != ValidationStatus::Green ==> r.with_warning(code, message).status == r.status
            && r.with_warning(code, message).risk_score == r.risk_score,
        r.extended_by(r.with_warning(code, message)),
        r.with_warning(code, message).has_code(code),
{
    let after = r.with_warning(code, message);
    assert(after.errors[r.errors.len() as int].code == code);
}

/// Neither an error nor a warning lowers a risk score between 0 and 100, nor
/// takes it out of that range.
pub proof fn lemma_findings_never_lower_risk(
    r: ReportView,
    code: Seq<char>,
    message: Seq<char>,
    field: Option<Seq<char>>,
    value: Option<Seq<char>>,
)
    requires
        r.risk_in_range(),
    ensures
        r.with_error(code, message, field, value).risk_score >= r.risk_score,
        r.with_error(code, message, field, value).risk_in_range(),
        r.with_warning(code, message).risk_score >= r.risk_score,
        r.with_warning(code, message).risk_in_range(),
{
}

/// Extension of reports is reflexive and transitive, and keeps the codes
/// that were found.
pub proof fn lemma_extension_chains(a: ReportView, b: ReportView, c: ReportView)
    requires
        a.extended_by(b),
        b.extended_by(c),
    ensures
        a.extended_by(a),
        a.extended_by(c),
        forall|code: Seq<char>| a.has_code(code) ==> c.has_code(code),
{
    assert forall|code: Seq<char>| a.has_code(code) implies c.has_code(code) by {
        let i = choose|i: int| 0 <= i < a.errors.len() && (#[trigger] a.errors[i]).code == code;
        assert(c.errors[i] == a.errors[i]);
    }
}

} // verus!
