//! Configurable rules: a closed vocabulary of rule logics, interpreted over
//! an invoice in one pass.

use crate::decimal::{amount_text, decimal_text};
use crate::domain::classification::{classification_views, IncomeClassification, IncomeClassificationView};
use crate::domain::invoice::{Invoice, InvoiceLineView, InvoiceView};
use crate::text::{
    contains_text, int_text, opt_str_text, replace_all, replace_placeholder, text_eq, texts,
    usize_to_text,
};
use crate::validation::result::{ReportView, Severity, ValidationReport};
use vstd::prelude::*;
use vstd::string::*;

verus! {

/// Name of the one line field that rules can inspect.
pub const FIELD_VAT_CATEGORY: &'static str = "vat_category";

/// Name of the one header field that rules can inspect.
pub const FIELD_INVOICE_TYPE: &'static str = "invoice_type";

/// Placeholder for the number of a line in a message template.
pub const PLACEHOLDER_LINE: &'static str = "{line}";

/// Placeholder for a count in a message template.
pub const PLACEHOLDER_COUNT: &'static str = "{count}";

/// Placeholder for a classification type in a message template.
pub const PLACEHOLDER_TYPE: &'static str = "{type}";

/// What a rule checks.
#[derive(Clone, Debug)]
pub enum RuleLogic {
    /// A named field of every line must hold one of the allowed values.
    LineValueAllowed { field_path: String, allowed_values: Vec<String> },
    /// Where a named header field holds the given value, a named field of
    /// every line must hold one of the allowed values.
    HeaderDependencyLine {
        header_field: String,
        header_value: String,
        line_check_field: String,
        allowed_values: Vec<String>,
    },
    /// Invoices of the listed types need a counterpart.
    CounterpartRequired { invoice_types: Vec<String> },
    /// Invoices of the listed types need a minimum number of income
    /// classifications.
    ClassificationRequired { invoice_types: Vec<String>, min_classifications: usize },
    /// An invoice in another currency than the default needs an exchange
    /// rate.
    CurrencyExchangeRate { default_currency: String },
    /// On invoices of the listed types the counterpart's country must not be
    /// one of the excluded countries.
    CounterpartCountry { invoice_types: Vec<String>, excluded_countries: Vec<String> },
    /// On invoices of the listed types every line amount must be negative.
    NegativeAmountsOnly { invoice_types: Vec<String> },
    /// On invoices of the listed types no line amount may be negative.
    NoNegativeAmounts { invoice_types: Vec<String> },
    /// Invoices of the listed types need a classification of each required
    /// type.
    ClassificationTypeRequired { invoice_types: Vec<String>, required_types: Vec<String> },
}

/// Mathematical view of a [`RuleLogic`].
pub enum RuleLogicView {
    LineValueAllowed { field_path: Seq<char>, allowed_values: Seq<Seq<char>> },
    HeaderDependencyLine {
        header_field: Seq<char>,
        header_value: Seq<char>,
        line_check_field: Seq<char>,
        allowed_values: Seq<Seq<char>>,
    },
    CounterpartRequired { invoice_types: Seq<Seq<char>> },
    ClassificationRequired { invoice_types: Seq<Seq<char>>, min_classifications: nat },
    CurrencyExchangeRate { default_currency: Seq<char> },
    CounterpartCountry { invoice_types: Seq<Seq<char>>, excluded_countries: Seq<Seq<char>> },
    NegativeAmountsOnly { invoice_types: Seq<Seq<char>> },
    NoNegativeAmounts { invoice_types: Seq<Seq<char>> },
    ClassificationTypeRequired { invoice_types: Seq<Seq<char>>, required_types: Seq<Seq<char>> },
}

impl View for RuleLogic {
    type V = RuleLogicView;

    open spec fn view(&self) -> RuleLogicView {
        match self {
            RuleLogic::LineValueAllowed { field_path, allowed_values } => {
                RuleLogicView::LineValueAllowed {
                    field_path: field_path@,
                    allowed_values: texts(allowed_values@),
                }
            },
            RuleLogic::HeaderDependencyLine {
                header_field,
                header_value,
                line_check_field,
                allowed_values,
            } => RuleLogicView::HeaderDependencyLine {
                header_field: header_field@,
                header_value: header_value@,
                line_check_field: line_check_field@,
                allowed_values: texts(allowed_values@),
            },
            RuleLogic::CounterpartRequired { invoice_types } => RuleLogicView::CounterpartRequired {
                invoice_types: texts(invoice_types@),
            },
            RuleLogic::ClassificationRequired { invoice_types, min_classifications } => {
                RuleLogicView::ClassificationRequired {
                    invoice_types: texts(invoice_types@),
                    min_classifications: *min_classifications as nat,
                }
            },
            RuleLogic::CurrencyExchangeRate { default_currency } => {
                RuleLogicView::CurrencyExchangeRate { default_currency: default_currency@ }
            },
            RuleLogic::CounterpartCountry { invoice_types, excluded_countries } => {
                RuleLogicView::CounterpartCountry {
                    invoice_types: texts(invoice_types@),
                    excluded_countries: texts(excluded_countries@),
                }
            },
            RuleLogic::NegativeAmountsOnly { invoice_types } => RuleLogicView::NegativeAmountsOnly {
                invoice_types: texts(invoice_types@),
            },
            RuleLogic::NoNegativeAmounts { invoice_types } => RuleLogicView::NoNegativeAmounts {
                invoice_types: texts(invoice_types@),
            },
            RuleLogic::ClassificationTypeRequired { invoice_types, required_types } => {
                RuleLogicView::ClassificationTypeRequired {
                    invoice_types: texts(invoice_types@),
                    required_types: texts(required_types@),
                }
            },
        }
    }
}

/// One configured rule.
#[derive(Clone, Debug)]
pub struct RuleDefinition {
    pub id: String,
    pub description: String,
    pub severity: Severity,
    pub logic: RuleLogic,
    pub error_message: String,
}

/// Mathematical view of a [`RuleDefinition`].
pub struct RuleDefinitionView {
    pub id: Seq<char>,
    pub description: Seq<char>,
    pub severity: Severity,
    pub logic: RuleLogicView,
    pub error_message: Seq<char>,
}

impl View for RuleDefinition {
    type V = RuleDefinitionView;

    open spec fn view(&self) -> RuleDefinitionView {
        RuleDefinitionView {
            id: self.id@,
            description: self.description@,
            severity: self.severity,
            logic: self.logic@,
            error_message: self.error_message@,
        }
    }
}

/// The views of a list of rules.
pub open spec fn rule_views(rules: Seq<RuleDefinition>) -> Seq<RuleDefinitionView> {
    Seq::new(rules.len(), |i: int| rules[i]@)
}

/// A versioned list of rules.
#[derive(Clone, Debug)]
pub struct RuleSet {
    pub version: String,
    pub rules: Vec<RuleDefinition>,
}

/// Mathematical view of a [`RuleSet`].
pub struct RuleSetView {
    pub version: Seq<char>,
    pub rules: Seq<RuleDefinitionView>,
}

impl View for RuleSet {
    type V = RuleSetView;

    open spec fn view(&self) -> RuleSetView {
        RuleSetView { version: self.version@, rules: rule_views(self.rules@) }
    }
}

/// What a rule reports of one violation, before the rule's severity decides
/// how it is recorded.
pub struct RuleFinding {
    pub message: Seq<char>,
    pub field: Option<Seq<char>>,
    pub value: Option<Seq<char>>,
}

/// The test that a rule applies to each line.
pub enum LineCheck {
    /// The line's VAT category code must be one of `allowed`; `field` is the
    /// field name the rule was written with.
    Allowed { field: Seq<char>, allowed: Seq<Seq<char>> },
    /// The line's net value must be negative.
    Negative,
    /// The line's net value must not be negative.
    NonNegative,
}

/// Path of a field of the line with the given number.
pub open spec fn line_field(number: int, field: Seq<char>) -> Seq<char> {
    "line["@ + int_text(number) + "]."@ + field
}

/// The finding, if any, of `check` on the line with the given number.
pub open spec fn line_finding(
    check: LineCheck,
    template: Seq<char>,
    line: InvoiceLineView,
    number: int,
) -> Option<RuleFinding> {
    let message = replace_all(template, PLACEHOLDER_LINE@, int_text(number));
    match check {
        LineCheck::Allowed { field, allowed } => {
            if allowed.contains(line.vat_category.code_text()) {
                None
            } else {
                Some(
                    RuleFinding {
                        message,
                        field: Some(line_field(number, field)),
                        value: Some(line.vat_category.code_text()),
                    },
                )
            }
        },
        LineCheck::Negative => {
            if line.net_value.spec_is_negative() {
                None
            } else {
                Some(
                    RuleFinding {
                        message,
                        field: Some(line_field(number, "netValue"@)),
                        value: Some(decimal_text(line.net_value)),
                    },
                )
            }
        },
        LineCheck::NonNegative => {
            if line.net_value.spec_is_negative() {
                Some(
                    RuleFinding {
                        message,
                        field: Some(line_field(number, "netValue"@)),
                        value: Some(decimal_text(line.net_value)),
                    },
                )
            } else {
                None
            }
        },
    }
}

/// The findings of `check` on the first `n` lines, in line order. Lines are
/// numbered from one by their position.
pub open spec fn line_findings(
    check: LineCheck,
    template: Seq<char>,
    lines: Seq<InvoiceLineView>,
    n: nat,
) -> Seq<RuleFinding>
    decreases n,
{
    if n == 0 {
        Seq::empty()
    } else {
        let before = line_findings(check, template, lines, (n - 1) as nat);
        match line_finding(check, template, lines[n - 1], n as int) {
            Some(f) => before.push(f),
            None => before,
        }
    }
}

/// Whether some classification has the type `wanted`.
pub open spec fn has_classification_type(
    list: Seq<IncomeClassificationView>,
    wanted: Seq<char>,
) -> bool {
    exists|k: int| 0 <= k < list.len() && (#[trigger] list[k]).classification_type == Some(wanted)
}

/// The findings for the first `n` required classification types: one for
/// each type that no classification has.
pub open spec fn missing_type_findings(
    template: Seq<char>,
    required: Seq<Seq<char>>,
    list: Seq<IncomeClassificationView>,
    n: nat,
) -> Seq<RuleFinding>
    decreases n,
{
    if n == 0 {
        Seq::empty()
    } else {
        let before = missing_type_findings(template, required, list, (n - 1) as nat);
        let wanted = required[n - 1];
        if has_classification_type(list, wanted) {
            before
        } else {
            before.push(
                RuleFinding {
                    message: replace_all(template, PLACEHOLDER_TYPE@, wanted),
                    field: Some("incomeClassification"@),
                    value: Some(wanted),
                },
            )
        }
    }
}

/// The violations of a rule on an invoice, in the order they are reported. A
/// rule that names a field other than the one known line field or the one
/// known header field matches nothing.
pub open spec fn rule_findings(rule: RuleDefinitionView, inv: InvoiceView) -> Seq<RuleFinding> {
    let template = rule.error_message;
    let type_code = inv.header.invoice_type.code_text();
    match rule.logic {
        RuleLogicView::LineValueAllowed { field_path, allowed_values } => {
            if field_path == FIELD_VAT_CATEGORY@ {
                line_findings(
                    LineCheck::Allowed { field: field_path, allowed: allowed_values },
                    template,
                    inv.lines,
                    inv.lines.len(),
                )
            } else {
                Seq::empty()
            }
        },
        RuleLogicView::HeaderDependencyLine {
            header_field,
            header_value,
            line_check_field,
            allowed_values,
        } => {
            if header_field == FIELD_INVOICE_TYPE@ && type_code == header_value && line_check_field
                == FIELD_VAT_CATEGORY@ {
                line_findings(
                    LineCheck::Allowed { field: line_check_field, allowed: allowed_values },
                    template,
                    inv.lines,
                    inv.lines.len(),
                )
            } else {
                Seq::empty()
            }
        },
        RuleLogicView::CounterpartRequired { invoice_types } => {
            if invoice_types.contains(type_code) && inv.counterpart is None {
                seq![RuleFinding { message: template, field: Some("counterpart"@), value: None }]
            } else {
                Seq::empty()
            }
        },
        RuleLogicView::ClassificationRequired { invoice_types, min_classifications } => {
            if invoice_types.contains(type_code) && inv.income_classifications.len()
                < min_classifications {
                seq![
                    RuleFinding {
                        message: replace_all(
                            template,
                            PLACEHOLDER_COUNT@,
                            int_text(inv.income_classifications.len() as int),
                        ),
                        field: Some("incomeClassification"@),
                        value: None,
                    },
                ]
            } else {
                Seq::empty()
            }
        },
        RuleLogicView::CurrencyExchangeRate { default_currency } => {
            if inv.header.currency != default_currency && inv.header.exchange_rate is None {
                seq![
                    RuleFinding {
                        message: template,
                        field: Some("exchangeRate"@),
                        value: Some(inv.header.currency),
                    },
                ]
            } else {
                Seq::empty()
            }
        },
        RuleLogicView::CounterpartCountry { invoice_types, excluded_countries } => {
            if invoice_types.contains(type_code) && inv.counterpart is Some
                && excluded_countries.contains(inv.counterpart->0.country) {
                seq![
                    RuleFinding {
                        message: template,
                        field: Some("counterpart.country"@),
                        value: Some(inv.counterpart->0.country),
                    },
                ]
            } else {
                Seq::empty()
            }
        },
        RuleLogicView::NegativeAmountsOnly { invoice_types } => {
            if invoice_types.contains(type_code) {
                line_findings(LineCheck::Negative, template, inv.lines, inv.lines.len())
            } else {
                Seq::empty()
            }
        },
        RuleLogicView::NoNegativeAmounts { invoice_types } => {
            if invoice_types.contains(type_code) {
                line_findings(LineCheck::NonNegative, template, inv.lines, inv.lines.len())
            } else {
                Seq::empty()
            }
        },
        RuleLogicView::ClassificationTypeRequired { invoice_types, required_types } => {
            if invoice_types.contains(type_code) {
                missing_type_findings(
                    template,
                    required_types,
                    inv.income_classifications,
                    required_types.len(),
                )
            } else {
                Seq::empty()
            }
        },
    }
}

/// The report after one violation of a rule with the given severity and
/// identifier: an error rejects, a warning warns, and an informational
/// finding leaves the report as it is.
pub open spec fn record(r: ReportView, severity: Severity, id: Seq<char>, f: RuleFinding) -> ReportView {
    match severity {
        Severity::Error => r.with_error(id, f.message, f.field, f.value),
        Severity::Warning => r.with_warning(id, f.message),
        Severity::Info => r,
    }
}

/// The report after the violations `findings` of one rule, recorded in
/// order.
pub open spec fn record_all(
    r: ReportView,
    severity: Severity,
    id: Seq<char>,
    findings: Seq<RuleFinding>,
) -> ReportView
    decreases findings.len(),
{
    if findings.len() == 0 {
        r
    } else {
        record(record_all(r, severity, id, findings.drop_last()), severity, id, findings.last())
    }
}

/// The report after one rule has been evaluated on an invoice.
pub open spec fn report_after_rule(r: ReportView, rule: RuleDefinitionView, inv: InvoiceView) -> ReportView {
    record_all(r, rule.severity, rule.id, rule_findings(rule, inv))
}

/// The report after the first `n` rules have been evaluated on an invoice,
/// in order.
pub open spec fn report_after_rules(
    r: ReportView,
    rules: Seq<RuleDefinitionView>,
    inv: InvoiceView,
    n: nat,
) -> ReportView
    decreases n,
{
    if n == 0 {
        r
    } else {
        report_after_rule(report_after_rules(r, rules, inv, (n - 1) as nat), rules[n - 1], inv)
    }
}

/// Recording one more violation after a list of violations.
pub proof fn lemma_record_push(
    r: ReportView,
    severity: Severity,
    id: Seq<char>,
    findings: Seq<RuleFinding>,
    f: RuleFinding,
)
    ensures
        record_all(r, severity, id, findings.push(f)) == record(
            record_all(r, severity, id, findings),
            severity,
            id,
            f,
        ),
{
    assert(findings.push(f).drop_last() =~= findings);
}

/// Recording a single violation.
pub proof fn lemma_record_one(r: ReportView, severity: Severity, id: Seq<char>, f: RuleFinding)
    ensures
        record_all(r, severity, id, seq![f]) == record(r, severity, id, f),
{
    assert(record_all(r, severity, id, seq![f].drop_last()) == r);
}

/// Recording violations never removes a finding and never leaves the
/// rejected state.
pub proof fn lemma_record_all_extends(
    r: ReportView,
    severity: Severity,
    id: Seq<char>,
    findings: Seq<RuleFinding>,
)
    ensures
        r.extended_by(record_all(r, severity, id, findings)),
    decreases findings.len(),
{
    if findings.len() > 0 {
        lemma_record_all_extends(r, severity, id, findings.drop_last());
    }
}

/// Recording violations never lowers a risk score between 0 and 100.
pub proof fn lemma_record_all_keeps_risk(
    r: ReportView,
    severity: Severity,
    id: Seq<char>,
    findings: Seq<RuleFinding>,
)
    requires
        r.risk_in_range(),
    ensures
        record_all(r, severity, id, findings).risk_score >= r.risk_score,
        record_all(r, severity, id, findings).risk_in_range(),
    decreases findings.len(),
{
    if findings.len() > 0 {
        lemma_record_all_keeps_risk(r, severity, id, findings.drop_last());
    }
}

/// Evaluating rules never lowers a risk score between 0 and 100.
pub proof fn lemma_rules_keep_risk(
    r: ReportView,
    rules: Seq<RuleDefinitionView>,
    inv: InvoiceView,
    n: nat,
)
    requires
        r.risk_in_range(),
    ensures
        report_after_rules(r, rules, inv, n).risk_score >= r.risk_score,
        report_after_rules(r, rules, inv, n).risk_in_range(),
    decreases n,
{
    if n > 0 {
        lemma_rules_keep_risk(r, rules, inv, (n - 1) as nat);
        lemma_record_all_keeps_risk(
            report_after_rules(r, rules, inv, (n - 1) as nat),
            rules[n - 1].severity,
            rules[n - 1].id,
            rule_findings(rules[n - 1], inv),
        );
    }
}

/// Evaluating rules never removes a finding and never leaves the rejected
/// state.
pub proof fn lemma_rules_extend(
    r: ReportView,
    rules: Seq<RuleDefinitionView>,
    inv: InvoiceView,
    n: nat,
)
    ensures
        r.extended_by(report_after_rules(r, rules, inv, n)),
    decreases n,
{
    if n > 0 {
        lemma_rules_extend(r, rules, inv, (n - 1) as nat);
        let before = report_after_rules(r, rules, inv, (n - 1) as nat);
        lemma_record_all_extends(
            before,
            rules[n - 1].severity,
            rules[n - 1].id,
            rule_findings(rules[n - 1], inv),
        );
    }
}

/// A rule that checks a line field under a name other than the one known
/// line field reports nothing, whatever the invoice holds.
pub proof fn lemma_unknown_field_matches_nothing(rule: RuleDefinitionView, inv: InvoiceView, r: ReportView)
    requires
        rule.logic is LineValueAllowed,
        rule.logic->LineValueAllowed_field_path != FIELD_VAT_CATEGORY@,
    ensures
        rule_findings(rule, inv).len() == 0,
        report_after_rule(r, rule, inv) == r,
{
}

/// The test of one line-by-line rule, with what it needs from the rule.
enum LineTest<'a> {
    Allowed { field: &'a String, allowed: &'a Vec<String> },
    Negative,
    NonNegative,
}

impl<'a> LineTest<'a> {
    /// The specification-level test this stands for.
    spec fn check(self) -> LineCheck {
        match self {
            LineTest::Allowed { field, allowed } => LineCheck::Allowed {
                field: field@,
                allowed: texts(allowed@),
            },
            LineTest::Negative => LineCheck::Negative,
            LineTest::NonNegative => LineCheck::NonNegative,
        }
    }
}

/// Evaluates a rule set on invoices.
#[derive(Clone, Debug)]
pub struct RulesEngine {
    rules: Vec<RuleDefinition>,
}

impl View for RulesEngine {
    type V = Seq<RuleDefinitionView>;

    closed spec fn view(&self) -> Seq<RuleDefinitionView> {
        rule_views(self.rules@)
    }
}

impl Default for RulesEngine {
    fn default() -> (engine: RulesEngine)
        ensures
            engine@ == Seq::<RuleDefinitionView>::empty(),
    {
        let engine = RulesEngine { rules: Vec::new() };
        engine
    }
}

impl RulesEngine {
    /// An engine without rules.
    pub fn new() -> (engine: RulesEngine)
        ensures
            engine@ == Seq::<RuleDefinitionView>::empty(),
    {
        RulesEngine::default()
    }

    /// An engine with the rules of `rule_set`, in their order.
    pub fn from_rule_set(rule_set: RuleSet) -> (engine: RulesEngine)
        ensures
            engine@ == rule_set@.rules,
    {
        RulesEngine { rules: rule_set.rules }
    }

    /// Number of rules of the engine.
    pub fn rule_count(&self) -> (n: usize)
        ensures
            n == self@.len(),
    {
        self.rules.len()
    }

    /// Evaluates every rule on `invoice`, in order, and records the
    /// violations in `report`.
    pub fn apply(&self, invoice: &Invoice, report: &mut ValidationReport)
        ensures
            final(report)@ == report_after_rules(old(report)@, self@, invoice@, self@.len()),
            old(report)@.extended_by(final(report)@),
    {
        let ghost start = report@;
        let mut i: usize = 0;
        while i < self.rules.len()
            invariant
                0 <= i <= self.rules.len(),
                report@ == report_after_rules(start, self@, invoice@, i as nat),
            decreases self.rules.len() - i,
        {
            Self::apply_rule(&self.rules[i], invoice, report);
            i = i + 1;
        }
        proof {
            lemma_rules_extend(start, self@, invoice@, self@.len());
        }
    }

    /// Evaluates one rule on `invoice` and records its violations.
    pub fn apply_rule(rule: &RuleDefinition, invoice: &Invoice, report: &mut ValidationReport)
        ensures
            final(report)@ == report_after_rule(old(report)@, rule@, invoice@),
    {
        let ghost start = report@;
        let type_code = invoice.header.invoice_type.code();
        let template = rule.error_message.as_str();
        match &rule.logic {
            RuleLogic::LineValueAllowed { field_path, allowed_values } => {
                if text_eq(field_path.as_str(), FIELD_VAT_CATEGORY) {
                    Self::check_lines(
                        report,
                        rule,
                        invoice,
                        LineTest::Allowed { field: field_path, allowed: allowed_values },
                    );
                }
            },
            RuleLogic::HeaderDependencyLine {
                header_field,
                header_value,
                line_check_field,
                allowed_values,
            } => {
                let header_match = text_eq(header_field.as_str(), FIELD_INVOICE_TYPE) && text_eq(
                    type_code,
                    header_value.as_str(),
                );
                if header_match && text_eq(line_check_field.as_str(), FIELD_VAT_CATEGORY) {
                    Self::check_lines(
                        report,
                        rule,
                        invoice,
                        LineTest::Allowed { field: line_check_field, allowed: allowed_values },
                    );
                }
            },
            RuleLogic::CounterpartRequired { invoice_types } => {
                if contains_text(invoice_types, type_code) && invoice.counterpart.is_none() {
                    Self::add_rule_error(report, rule, template, Some("counterpart"), None);
                    proof {
                        lemma_record_one(
                            start,
                            rule.severity,
                            rule.id@,
                            RuleFinding {
                                message: template@,
                                field: Some("counterpart"@),
                                value: None,
                            },
                        );
                    }
                }
            },
            RuleLogic::ClassificationRequired { invoice_types, min_classifications } => {
                let count = invoice.income_classifications.len();
                if contains_text(invoice_types, type_code) && count < *min_classifications {
                    proof {
                        reveal_strlit("{count}");
                    }
                    let count_text = usize_to_text(count);
                    let message = replace_placeholder(
                        template,
                        PLACEHOLDER_COUNT,
                        count_text.as_str(),
                    );
                    Self::add_rule_error(
                        report,
                        rule,
                        message.as_str(),
                        Some("incomeClassification"),
                        None,
                    );
                    proof {
                        lemma_record_one(
                            start,
                            rule.severity,
                            rule.id@,
                            RuleFinding {
                                message: message@,
                                field: Some("incomeClassification"@),
                                value: None,
                            },
                        );
                    }
                }
            },
            RuleLogic::CurrencyExchangeRate { default_currency } => {
                if invoice.header.currency != *default_currency
                    && invoice.header.exchange_rate.is_none() {
                    Self::add_rule_error(
                        report,
                        rule,
                        template,
                        Some("exchangeRate"),
                        Some(invoice.header.currency.as_str()),
                    );
                    proof {
                        lemma_record_one(
                            start,
                            rule.severity,
                            rule.id@,
                            RuleFinding {
                                message: template@,
                                field: Some("exchangeRate"@),
                                value: Some(invoice.header.currency@),
                            },
                        );
                    }
                }
            },
            RuleLogic::CounterpartCountry { invoice_types, excluded_countries } => {
                if contains_text(invoice_types, type_code) {
                    match &invoice.counterpart {
                        Some(cp) => {
                            if contains_text(excluded_countries, cp.country.as_str()) {
                                Self::add_rule_error(
                                    report,
                                    rule,
                                    template,
                                    Some("counterpart.country"),
                                    Some(cp.country.as_str()),
                                );
                                proof {
                                    lemma_record_one(
                                        start,
                                        rule.severity,
                                        rule.id@,
                                        RuleFinding {
                                            message: template@,
                                            field: Some("counterpart.country"@),
                                            value: Some(cp.country@),
                                        },
                                    );
                                }
                            }
                        },
                        None => {},
                    }
                }
            },
            RuleLogic::NegativeAmountsOnly { invoice_types } => {
                if contains_text(invoice_types, type_code) {
                    Self::check_lines(report, rule, invoice, LineTest::Negative);
                }
            },
            RuleLogic::NoNegativeAmounts { invoice_types } => {
                if contains_text(invoice_types, type_code) {
                    Self::check_lines(report, rule, invoice, LineTest::NonNegative);
                }
            },
            RuleLogic::ClassificationTypeRequired { invoice_types, required_types } => {
                if contains_text(invoice_types, type_code) {
                    Self::check_required_types(report, rule, invoice, required_types);
                }
            },
        }
    }

    /// Applies a line test to every line and records the violations.
    fn check_lines(
        report: &mut ValidationReport,
        rule: &RuleDefinition,
        invoice: &Invoice,
        test: LineTest<'_>,
    )
        ensures
            final(report)@ == record_all(
                old(report)@,
                rule.severity,
                rule.id@,
                line_findings(
                    test.check(),
                    rule.error_message@,
                    invoice@.lines,
                    invoice@.lines.len(),
                ),
            ),
    {
        let ghost start = report@;
        let ghost check = test.check();
        let ghost template = rule.error_message@;
        let mut idx: usize = 0;
        while idx < invoice.lines.len()
            invariant
                0 <= idx <= invoice.lines.len(),
                check == test.check(),
                template == rule.error_message@,
                report@ == record_all(
                    start,
                    rule.severity,
                    rule.id@,
                    line_findings(check, template, invoice@.lines, idx as nat),
                ),
            decreases invoice.lines.len() - idx,
        {
            let line = &invoice.lines[idx];
            let ghost before = line_findings(check, template, invoice@.lines, idx as nat);
            let number = usize_to_text(idx + 1);
            let path_and_value: Option<(String, String)> = match test {
                LineTest::Allowed { field, allowed } => {
                    let code = line.vat_category.code();
                    if contains_text(allowed, code) {
                        None
                    } else {
                        Some((Self::line_path(number.as_str(), field.as_str()), code.to_owned()))
                    }
                },
                LineTest::Negative => {
                    if line.net_value.is_negative() {
                        None
                    } else {
                        Some(
                            (
                                Self::line_path(number.as_str(), "netValue"),
                                amount_text(line.net_value),
                            ),
                        )
                    }
                },
                LineTest::NonNegative => {
                    if line.net_value.is_negative() {
                        Some(
                            (
                                Self::line_path(number.as_str(), "netValue"),
                                amount_text(line.net_value),
                            ),
                        )
                    } else {
                        None
                    }
                },
            };
            match path_and_value {
                Some((path, value)) => {
                    proof {
                        reveal_strlit("{line}");
                    }
                    let message = replace_placeholder(
                        rule.error_message.as_str(),
                        PLACEHOLDER_LINE,
                        number.as_str(),
                    );
                    Self::add_rule_error(
                        report,
                        rule,
                        message.as_str(),
                        Some(path.as_str()),
                        Some(value.as_str()),
                    );
                    proof {
                        let f = RuleFinding {
                            message: message@,
                            field: Some(path@),
                            value: Some(value@),
                        };
                        lemma_record_push(start, rule.severity, rule.id@, before, f);
                    }
                },
                None => {},
            }
            idx = idx + 1;
        }
    }

    /// The path of a field of the line with the given number.
    fn line_path(number: &str, field: &str) -> (path: String)
        ensures
            path@ == "line["@ + number@ + "]."@ + field@,
    {
        let mut path = String::from_str("line[");
        path.append(number);
        path.append("].");
        path.append(field);
        path
    }

    /// Whether some classification of the list has the type `wanted`.
    fn has_type(list: &Vec<IncomeClassification>, wanted: &str) -> (found: bool)
        ensures
            found == has_classification_type(classification_views(list@), wanted@),
    {
        let mut k: usize = 0;
        while k < list.len()
            invariant
                0 <= k <= list.len(),
                forall|j: int|
                    0 <= j < k ==> (#[trigger] classification_views(list@)[j]).classification_type
                        != Some(wanted@),
            decreases list.len() - k,
        {
            let matches = match &list[k].classification_type {
                Some(t) => text_eq(t.as_str(), wanted),
                None => false,
            };
            if matches {
                assert(classification_views(list@)[k as int].classification_type == Some(
                    wanted@,
                ));
                return true;
            }
            k = k + 1;
        }
        false
    }

    /// Records one violation for each required classification type that the
    /// invoice lacks.
    fn check_required_types(
        report: &mut ValidationReport,
        rule: &RuleDefinition,
        invoice: &Invoice,
        required: &Vec<String>,
    )
        ensures
            final(report)@ == record_all(
                old(report)@,
                rule.severity,
                rule.id@,
                missing_type_findings(
                    rule.error_message@,
                    texts(required@),
                    invoice@.income_classifications,
                    required@.len(),
                ),
            ),
    {
        let ghost start = report@;
        let ghost template = rule.error_message@;
        let mut idx: usize = 0;
        while idx < required.len()
            invariant
                0 <= idx <= required.len(),
                template == rule.error_message@,
                report@ == record_all(
                    start,
                    rule.severity,
                    rule.id@,
                    missing_type_findings(
                        template,
                        texts(required@),
                        invoice@.income_classifications,
                        idx as nat,
                    ),
                ),
            decreases required.len() - idx,
        {
            let wanted = required[idx].as_str();
            let ghost before = missing_type_findings(
                template,
                texts(required@),
                invoice@.income_classifications,
                idx as nat,
            );
            if !Self::has_type(&invoice.income_classifications, wanted) {
                proof {
                    reveal_strlit("{type}");
                }
                let message = replace_placeholder(
                    rule.error_message.as_str(),
                    PLACEHOLDER_TYPE,
                    wanted,
                );
                Self::add_rule_error(
                    report,
                    rule,
                    message.as_str(),
                    Some("incomeClassification"),
                    Some(wanted),
                );
                proof {
                    let f = RuleFinding {
                        message: message@,
                        field: Some("incomeClassification"@),
                        value: Some(wanted@),
                    };
                    lemma_record_push(start, rule.severity, rule.id@, before, f);
                }
            }
            idx = idx + 1;
        }
    }

    /// Records one violation of `rule` according to the rule's severity: an
    /// error rejects the report, a warning warns, an informational rule
    /// records nothing.
    pub fn add_rule_error(
        report: &mut ValidationReport,
        rule: &RuleDefinition,
        message: &str,
        field: Option<&str>,
        value: Option<&str>,
    )
        ensures
            final(report)@ == record(
                old(report)@,
                rule.severity,
                rule.id@,
                RuleFinding {
                    message: message@,
                    field: opt_str_text(field),
                    value: opt_str_text(value),
                },
            ),
    {
        match rule.severity {
            Severity::Error => report.add_error(rule.id.as_str(), message, field, value),
            Severity::Warning => report.add_warning(rule.id.as_str(), message),
            Severity::Info => {},
        }
    }
}


} // verus!
