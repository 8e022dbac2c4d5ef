//! The fixed consistency checks, and the validation of an invoice as a
//! whole.

use crate::date::{today, CalendarDate};
use crate::decimal::{
    absolute, amount_eq, amount_gt, amount_text, checked_difference, checked_product,
    checked_sum, decimal_difference, decimal_product, decimal_sum, decimal_text,
    lemma_new_parts, lemma_same_scale_order, magnitude, round_half_away, rounded, Amount,
};
use crate::domain::classification::IncomeClassificationView;
use crate::domain::invoice::{Invoice, InvoiceLine, InvoiceLineView, InvoiceView};
use crate::text::{i32_to_text, int_text, join3, text_eq};
use crate::utils::afm::{is_valid_afm, validate_afm};
use crate::validation::result::{
    lemma_extension_chains, ReportView, ValidationReport, ValidationStatus,
};
use crate::validation::rules_engine::{
    lemma_rules_extend, report_after_rules, RuleDefinitionView, RulesEngine,
};
use vstd::prelude::*;
use vstd::string::*;

verus! {

/// Country code under which tax identifiers are checked.
pub const DOMESTIC_COUNTRY: &'static str = "GR";

/// Number of fractional digits of a VAT amount.
pub const VAT_DECIMALS: u32 = 2;

/// Code of the finding for a net total that the lines do not add up to.
pub const CODE_NET_TOTAL: &'static str = "BR-001";

/// Code of the finding for a VAT total that the lines do not add up to.
pub const CODE_VAT_TOTAL: &'static str = "BR-002";

/// Code of the finding for an invalid issuer tax identifier.
pub const CODE_ISSUER_AFM: &'static str = "BR-003";

/// Code of the finding for an invalid counterpart tax identifier.
pub const CODE_COUNTERPART_AFM: &'static str = "BR-004";

/// Code of the finding for an issue date in the future.
pub const CODE_FUTURE_DATE: &'static str = "BR-005";

/// Code of the finding for a line whose VAT amount does not follow from its
/// net value and rate.
pub const CODE_LINE_VAT: &'static str = "BR-VAT-CALC";

/// Code of the finding for classifications that do not add up to the net
/// total.
pub const CODE_CLASSIFICATION_TOTAL: &'static str = "BR-CLS-TOTAL";

/// Code of the finding for a rule set that could not be loaded.
pub const CODE_RULES_UNAVAILABLE: &'static str = "SYS-001";

/// Largest difference that counts as rounding noise: 0.05.
pub open spec fn tolerance() -> Amount {
    Amount::spec_new(5, 2)
}

/// The sum of the first `n` amounts, added up from zero in order; nothing
/// where an addition overflows.
pub open spec fn sum_amounts(amounts: Seq<Amount>, n: nat) -> Option<Amount>
    decreases n,
{
    if n == 0 {
        Some(Amount::spec_zero())
    } else {
        match sum_amounts(amounts, (n - 1) as nat) {
            Some(acc) => decimal_sum(acc, amounts[n - 1]),
            None => None,
        }
    }
}

/// The net values of the lines, in order.
pub open spec fn net_values(lines: Seq<InvoiceLineView>) -> Seq<Amount> {
    Seq::new(lines.len(), |i: int| lines[i].net_value)
}

/// The VAT amounts of the lines, in order.
pub open spec fn vat_amounts(lines: Seq<InvoiceLineView>) -> Seq<Amount> {
    Seq::new(lines.len(), |i: int| lines[i].vat_amount)
}

/// The amounts of the classifications, in order.
pub open spec fn classified_amounts(list: Seq<IncomeClassificationView>) -> Seq<Amount> {
    Seq::new(list.len(), |i: int| list[i].amount)
}

/// The sum of all amounts of a list.
pub open spec fn total_of(amounts: Seq<Amount>) -> Option<Amount> {
    sum_amounts(amounts, amounts.len())
}

/// Whether a computed sum exists and denotes the same number as `total`.
pub open spec fn sums_to(sum: Option<Amount>, total: Amount) -> bool {
    sum is Some && sum->0.units() == total.units()
}

/// How a computed amount is written in a message; an amount that could not
/// be computed is written as `overflow`.
pub open spec fn computed_text(a: Option<Amount>) -> Seq<char> {
    match a {
        Some(a) => decimal_text(a),
        None => "overflow"@,
    }
}

/// The distance between a computed amount and a declared amount; nothing
/// where either the computed amount or the subtraction overflowed.
pub open spec fn distance(computed: Option<Amount>, declared: Amount) -> Option<Amount> {
    match computed {
        Some(c) => match decimal_difference(c, declared) {
            Some(d) => Some(absolute(d)),
            None => None,
        },
        None => None,
    }
}

/// Whether a distance is more than the tolerance of 0.05. A distance that
/// could not be computed counts as more.
pub open spec fn beyond_tolerance(d: Option<Amount>) -> bool {
    match d {
        Some(d) => d.units() > tolerance().units(),
        None => true,
    }
}

/// The VAT that a line calls for: its net value times the rate of its
/// category, rounded to two fractional digits, ties away from zero.
pub open spec fn expected_vat(line: InvoiceLineView) -> Option<Amount> {
    match decimal_product(line.net_value, line.vat_category.spec_rate()) {
        Some(p) => Some(rounded(p, VAT_DECIMALS as nat)),
        None => None,
    }
}

/// The message of the finding for a line whose VAT amount is too far from
/// the expected VAT `expected`.
pub open spec fn vat_message(line: InvoiceLineView, expected: Option<Amount>) -> Seq<char> {
    "VAT Amount mismatch on Line "@ + int_text(line.line_number as int) + ". Net: "@
        + decimal_text(line.net_value) + ", Rate: "@ + decimal_text(
        line.vat_category.spec_rate(),
    ) + ", Expected: "@ + computed_text(expected) + ", Found: "@ + decimal_text(line.vat_amount)
}

/// The report after the VAT check of one line, given the VAT that the line
/// calls for and the distance of its VAT amount from it: a finding that
/// names the line where the distance is beyond the tolerance, and no change
/// otherwise.
pub open spec fn line_vat_reported(
    r: ReportView,
    line: InvoiceLineView,
    expected: Option<Amount>,
    gap: Option<Amount>,
) -> ReportView {
    if beyond_tolerance(gap) {
        r.with_error(
            CODE_LINE_VAT@,
            vat_message(line, expected),
            Some("invoiceDetails.vatAmount"@),
            Some(decimal_text(line.vat_amount)),
        )
    } else {
        r
    }
}

/// The report after the per-line VAT check of the first `n` lines.
pub open spec fn line_vat_checked(r: ReportView, lines: Seq<InvoiceLineView>, n: nat) -> ReportView
    decreases n,
{
    if n == 0 {
        r
    } else {
        let before = line_vat_checked(r, lines, (n - 1) as nat);
        let line = lines[n - 1];
        line_vat_reported(
            before,
            line,
            expected_vat(line),
            distance(expected_vat(line), line.vat_amount),
        )
    }
}

/// The report after the classification-total check, given the sum of the
/// classification amounts and its distance from the declared net total: a
/// finding where the distance is beyond the tolerance, and no change
/// otherwise.
pub open spec fn classification_total_reported(
    r: ReportView,
    total: Option<Amount>,
    gap: Option<Amount>,
    declared: Amount,
) -> ReportView {
    if beyond_tolerance(gap) {
        r.with_error(
            CODE_CLASSIFICATION_TOTAL@,
            "Income Classification Total ("@ + computed_text(total)
                + ") mismatch with Net Value ("@ + decimal_text(declared) + ")"@,
            Some("invoiceSummary.incomeClassification"@),
            Some(computed_text(total)),
        )
    } else {
        r
    }
}

/// The report after the classification-total check.
pub open spec fn classifications_checked(r: ReportView, inv: InvoiceView) -> ReportView {
    let total = total_of(classified_amounts(inv.income_classifications));
    classification_total_reported(
        r,
        total,
        distance(total, inv.totals.total_net_amount),
        inv.totals.total_net_amount,
    )
}

/// The sum of the net values of all lines.
pub open spec fn net_sum(inv: InvoiceView) -> Option<Amount> {
    total_of(net_values(inv.lines))
}

/// The sum of the VAT amounts of all lines.
pub open spec fn vat_sum(inv: InvoiceView) -> Option<Amount> {
    total_of(vat_amounts(inv.lines))
}

/// The report after the check of the net total, given the sum of the net
/// values: no change where the sum is the declared total, and a finding
/// otherwise.
pub open spec fn net_total_reported(
    r: ReportView,
    sum: Option<Amount>,
    declared: Amount,
) -> ReportView {
    if sums_to(sum, declared) {
        r
    } else {
        r.with_error(
            CODE_NET_TOTAL@,
            "Calculated Net Amount ("@ + computed_text(sum) + ") mismatch"@,
            Some("totalNetValue"@),
            Some(decimal_text(declared)),
        )
    }
}

/// The report after the check of the VAT total, given the sum of the VAT
/// amounts: no change where the sum is the declared total, and a finding
/// otherwise.
pub open spec fn vat_total_reported(
    r: ReportView,
    sum: Option<Amount>,
    declared: Amount,
) -> ReportView {
    if sums_to(sum, declared) {
        r
    } else {
        r.with_error(
            CODE_VAT_TOTAL@,
            "Calculated VAT Amount ("@ + computed_text(sum) + ") mismatch"@,
            Some("totalVatAmount"@),
            Some(decimal_text(declared)),
        )
    }
}

/// The report after the check of the net total.
pub open spec fn net_total_checked(r: ReportView, inv: InvoiceView) -> ReportView {
    net_total_reported(r, net_sum(inv), inv.totals.total_net_amount)
}

/// The report after the check of the VAT total.
pub open spec fn vat_total_checked(r: ReportView, inv: InvoiceView) -> ReportView {
    vat_total_reported(r, vat_sum(inv), inv.totals.total_vat_amount)
}

/// The report after the totals reconciliation: the net total, then the VAT
/// total.
pub open spec fn totals_checked(r: ReportView, inv: InvoiceView) -> ReportView {
    vat_total_checked(net_total_checked(r, inv), inv)
}

/// Whether a party of the given country has a tax identifier that fails the
/// checksum. Only domestic parties are checked.
pub open spec fn afm_rejected(country: Seq<char>, vat_number: Seq<char>) -> bool {
    country == DOMESTIC_COUNTRY@ && !is_valid_afm(vat_number)
}

/// The report after the tax identifier checks: the issuer, then the
/// counterpart if there is one.
pub open spec fn vat_numbers_checked(r: ReportView, inv: InvoiceView) -> ReportView {
    let r = if afm_rejected(inv.issuer.country, inv.issuer.vat_number) {
        r.with_error(
            CODE_ISSUER_AFM@,
            "Invalid Issuer VAT Number (AFM)"@,
            Some("issuer.vatNumber"@),
            Some(inv.issuer.vat_number),
        )
    } else {
        r
    };
    if inv.counterpart is Some && afm_rejected(
        inv.counterpart->0.country,
        inv.counterpart->0.vat_number,
    ) {
        r.with_error(
            CODE_COUNTERPART_AFM@,
            "Invalid Counterpart VAT Number (AFM)"@,
            Some("counterpart.vatNumber"@),
            Some(inv.counterpart->0.vat_number),
        )
    } else {
        r
    }
}

/// The report after the date check against the current date `today`.
pub open spec fn dates_checked(r: ReportView, inv: InvoiceView, today: CalendarDate) -> ReportView {
    if inv.header.issue_date.spec_is_after(today) {
        r.with_error(
            CODE_FUTURE_DATE@,
            "Issue date cannot be in the future"@,
            Some("invoiceHeader.issueDate"@),
            Some(inv.header.issue_date.text()),
        )
    } else {
        r
    }
}

/// The report after all fixed checks, in the order in which they run: line
/// VAT, classifications, totals, tax identifiers, dates.
pub open spec fn static_checked(r: ReportView, inv: InvoiceView, today: CalendarDate) -> ReportView {
    let r = line_vat_checked(r, inv.lines, inv.lines.len());
    let r = classifications_checked(r, inv);
    let r = totals_checked(r, inv);
    let r = vat_numbers_checked(r, inv);
    dates_checked(r, inv, today)
}

/// The report after the configured rules: the rules are evaluated in order,
/// and a rule set that could not be loaded is recorded as one error.
pub open spec fn rules_checked(
    r: ReportView,
    inv: InvoiceView,
    rules: Result<Seq<RuleDefinitionView>, Seq<char>>,
) -> ReportView {
    match rules {
        Ok(rules) => report_after_rules(r, rules, inv, rules.len()),
        Err(e) => r.with_error(
            CODE_RULES_UNAVAILABLE@,
            "Failed to load validation rules: "@ + e,
            None,
            None,
        ),
    }
}

/// The report of a complete validation on the day `today`.
pub open spec fn validated(
    inv: InvoiceView,
    rules: Result<Seq<RuleDefinitionView>, Seq<char>>,
    today: CalendarDate,
) -> ReportView {
    rules_checked(static_checked(ReportView::clean(), inv, today), inv, rules)
}

/// The view of a loaded rule set, or of the message of its load failure.
pub open spec fn rule_source(rules: Result<RulesEngine, String>) -> Result<
    Seq<RuleDefinitionView>,
    Seq<char>,
> {
    match rules {
        Ok(engine) => Ok(engine@),
        Err(e) => Err(e@),
    }
}

/// A distance with two fractional digits is beyond the tolerance exactly
/// when it is more than five hundredths.
pub proof fn lemma_tolerance_in_cents(gap: Amount)
    requires
        gap.spec_scale() == 2,
    ensures
        beyond_tolerance(Some(gap)) <==> gap.spec_mantissa() > 5,
{
    lemma_new_parts(5, 2);
    lemma_same_scale_order(gap, tolerance());
}

/// The VAT check of a line whose VAT amount lies at a distance of at most
/// five hundredths from the expected VAT leaves the report as it was; at a
/// greater distance, or with no distance to go by, it rejects the report
/// with a finding for that line.
pub proof fn lemma_line_vat_within_tolerance(
    r: ReportView,
    line: InvoiceLineView,
    expected: Option<Amount>,
    gap: Option<Amount>,
)
    requires
        gap is Some ==> gap->0.spec_scale() == 2,
    ensures
        gap is Some && gap->0.spec_mantissa() <= 5 ==> line_vat_reported(r, line, expected, gap)
            == r,
        gap is None || gap->0.spec_mantissa() > 5 ==> line_vat_reported(
            r,
            line,
            expected,
            gap,
        ).status == ValidationStatus::Red && line_vat_reported(r, line, expected, gap).has_code(
            CODE_LINE_VAT@,
        ),
{
    if gap is Some {
        lemma_tolerance_in_cents(gap->0);
    }
    if beyond_tolerance(gap) {
        let after = line_vat_reported(r, line, expected, gap);
        assert(after.errors[r.errors.len() as int].code == CODE_LINE_VAT@);
    }
}

/// The per-line VAT check never removes a finding and never leaves the
/// rejected state.
pub proof fn lemma_line_vat_extends(r: ReportView, lines: Seq<InvoiceLineView>, n: nat)
    ensures
        r.extended_by(line_vat_checked(r, lines, n)),
    decreases n,
{
    if n > 0 {
        lemma_line_vat_extends(r, lines, (n - 1) as nat);
    }
}

/// Where the net values and the VAT amounts of the lines add up to the
/// declared totals, the totals reconciliation adds no finding and leaves the
/// report as it was.
pub proof fn lemma_matching_totals_add_nothing(r: ReportView, inv: InvoiceView)
    requires
        sums_to(net_sum(inv), inv.totals.total_net_amount),
        sums_to(vat_sum(inv), inv.totals.total_vat_amount),
    ensures
        totals_checked(r, inv) == r,
{
}

/// Where the net values of the lines do not add up to the declared net
/// total, the totals reconciliation rejects the report with the code of the
/// net total; where the VAT amounts do not add up to the declared VAT total,
/// it rejects with the code of the VAT total.
pub proof fn lemma_totals_mismatch_rejects(r: ReportView, inv: InvoiceView)
    ensures
        r.extended_by(totals_checked(r, inv)),
        !sums_to(net_sum(inv), inv.totals.total_net_amount) ==> totals_checked(r, inv).status
            == ValidationStatus::Red && totals_checked(r, inv).risk_score == 100
            && totals_checked(r, inv).has_code(CODE_NET_TOTAL@),
        !sums_to(vat_sum(inv), inv.totals.total_vat_amount) ==> totals_checked(r, inv).status
            == ValidationStatus::Red && totals_checked(r, inv).risk_score == 100
            && totals_checked(r, inv).has_code(CODE_VAT_TOTAL@),
{
    let mid = net_total_checked(r, inv);
    let end = vat_total_checked(mid, inv);
    if !sums_to(net_sum(inv), inv.totals.total_net_amount) {
        assert(end.errors[r.errors.len() as int].code == CODE_NET_TOTAL@);
    }
    if !sums_to(vat_sum(inv), inv.totals.total_vat_amount) {
        assert(end.errors[mid.errors.len() as int].code == CODE_VAT_TOTAL@);
    }
}

/// A complete validation of an invoice whose lines do not add up to a
/// declared total ends rejected and holds the finding of that total,
/// whatever the other checks and the rules find.
pub proof fn lemma_validation_keeps_totals_mismatch(
    inv: InvoiceView,
    rules: Result<Seq<RuleDefinitionView>, Seq<char>>,
    today: CalendarDate,
)
    ensures
        !sums_to(net_sum(inv), inv.totals.total_net_amount) ==> validated(
            inv,
            rules,
            today,
        ).status == ValidationStatus::Red && validated(inv, rules, today).risk_score == 100
            && validated(inv, rules, today).has_code(
            CODE_NET_TOTAL@,
        ),
        !sums_to(vat_sum(inv), inv.totals.total_vat_amount) ==> validated(
            inv,
            rules,
            today,
        ).status == ValidationStatus::Red && validated(inv, rules, today).risk_score == 100
            && validated(inv, rules, today).has_code(
            CODE_VAT_TOTAL@,
        ),
{
    let r0 = ReportView::clean();
    let r1 = line_vat_checked(r0, inv.lines, inv.lines.len());
    let r2 = classifications_checked(r1, inv);
    let r3 = totals_checked(r2, inv);
    let r4 = vat_numbers_checked(r3, inv);
    let r5 = dates_checked(r4, inv, today);
    let r6 = rules_checked(r5, inv, rules);
    lemma_totals_mismatch_rejects(r2, inv);
    match rules {
        Ok(rs) => {
            lemma_rules_extend(r5, rs, inv, rs.len());
        },
        Err(e) => {},
    }
    lemma_extension_chains(r3, r4, r5);
    lemma_extension_chains(r3, r5, r6);
}

/// The fixed consistency checks on invoices.
pub struct BusinessRules;

impl BusinessRules {
    /// Validates an invoice against the fixed checks and the configured
    /// rules, with the current date taken from the clock. `rules` is the
    /// loaded rule set, or the message of its load failure.
    pub fn validate(invoice: &Invoice, rules: &Result<RulesEngine, String>) -> (report:
        ValidationReport)
        ensures
            exists|today: CalendarDate| report@ == validated(invoice@, rule_source(*rules), today),
            !sums_to(net_sum(invoice@), invoice@.totals.total_net_amount) ==> report@.status
                == ValidationStatus::Red && report@.risk_score == 100 && report@.has_code(
                CODE_NET_TOTAL@,
            ),
            !sums_to(vat_sum(invoice@), invoice@.totals.total_vat_amount) ==> report@.status
                == ValidationStatus::Red && report@.risk_score == 100 && report@.has_code(
                CODE_VAT_TOTAL@,
            ),
    {
        let now = today();
        Self::validate_on(invoice, rules, now)
    }

    /// Validates an invoice against the fixed checks and the configured
    /// rules, taking `today` as the current date.
    pub fn validate_on(
        invoice: &Invoice,
        rules: &Result<RulesEngine, String>,
        today: CalendarDate,
    ) -> (report: ValidationReport)
        ensures
            report@ == validated(invoice@, rule_source(*rules), today),
            !sums_to(net_sum(invoice@), invoice@.totals.total_net_amount) ==> report@.status
                == ValidationStatus::Red && report@.risk_score == 100 && report@.has_code(
                CODE_NET_TOTAL@,
            ),
            !sums_to(vat_sum(invoice@), invoice@.totals.total_vat_amount) ==> report@.status
                == ValidationStatus::Red && report@.risk_score == 100 && report@.has_code(
                CODE_VAT_TOTAL@,
            ),
    {
        let mut report = ValidationReport::new();
        Self::check_line_vat_consistency(invoice, &mut report);
        Self::check_classifications(invoice, &mut report);
        Self::check_totals(invoice, &mut report);
        Self::check_vat_numbers(invoice, &mut report);
        Self::check_dates(invoice, today, &mut report);
        match rules {
            Ok(engine) => {
                engine.apply(invoice, &mut report);
            },
            Err(e) => {
                let message = String::from_str("Failed to load validation rules: ").concat(
                    e.as_str(),
                );
                report.add_error(CODE_RULES_UNAVAILABLE, message.as_str(), None, None);
            },
        }
        proof {
            lemma_validation_keeps_totals_mismatch(invoice@, rule_source(*rules), today);
        }
        report
    }

    /// Adds up amounts from zero, in order; nothing where an addition
    /// overflows.
    pub fn sum(amounts: &Vec<Amount>) -> (total: Option<Amount>)
        ensures
            total == total_of(amounts@),
    {
        let mut acc = Amount::zero();
        let mut i: usize = 0;
        while i < amounts.len()
            invariant
                0 <= i <= amounts.len(),
                sum_amounts(amounts@, i as nat) == Some(acc),
            decreases amounts.len() - i,
        {
            match checked_sum(acc, amounts[i]) {
                Some(next) => {
                    acc = next;
                },
                None => {
                    proof {
                        Self::lemma_sum_overflow_stays(amounts@, (i + 1) as nat, amounts@.len());
                    }
                    return None;
                },
            }
            i = i + 1;
        }
        Some(acc)
    }

    /// Once a partial sum has overflowed, every longer sum has.
    proof fn lemma_sum_overflow_stays(amounts: Seq<Amount>, n: nat, m: nat)
        requires
            n <= m,
            sum_amounts(amounts, n) is None,
        ensures
            sum_amounts(amounts, m) is None,
        decreases m,
    {
        if n < m {
            Self::lemma_sum_overflow_stays(amounts, n, (m - 1) as nat);
        }
    }

    /// How a computed amount is written in a message.
    fn computed(a: Option<Amount>) -> (s: String)
        ensures
            s@ == computed_text(a),
    {
        match a {
            Some(a) => amount_text(a),
            None => "overflow".to_owned(),
        }
    }

    /// The distance between a computed amount and a declared amount; nothing
    /// where the computed amount is missing or the subtraction overflows.
    pub fn distance_between(computed: Option<Amount>, declared: Amount) -> (gap: Option<Amount>)
        ensures
            gap == distance(computed, declared),
    {
        match computed {
            Some(c) => match checked_difference(c, declared) {
                Some(d) => Some(magnitude(d)),
                None => None,
            },
            None => None,
        }
    }

    /// Whether a distance is more than the tolerance of 0.05; a missing
    /// distance counts as more.
    pub fn exceeds_tolerance(gap: Option<Amount>) -> (beyond: bool)
        ensures
            beyond == beyond_tolerance(gap),
    {
        match gap {
            Some(d) => amount_gt(d, Amount::new(5, 2)),
            None => true,
        }
    }

    /// Records the outcome of the net-total check for the sum `sum` of the
    /// net values and the declared net total.
    pub fn report_net_total(sum: Option<Amount>, declared: Amount, report: &mut ValidationReport)
        ensures
            final(report)@ == net_total_reported(old(report)@, sum, declared),
    {
        let matches = match sum {
            Some(s) => amount_eq(s, declared),
            None => false,
        };
        if !matches {
            let message = join3(
                "Calculated Net Amount (",
                Self::computed(sum).as_str(),
                ") mismatch",
            );
            let declared_text = amount_text(declared);
            report.add_error(
                CODE_NET_TOTAL,
                message.as_str(),
                Some("totalNetValue"),
                Some(declared_text.as_str()),
            );
        }
    }

    /// Records the outcome of the VAT-total check for the sum `sum` of the
    /// VAT amounts and the declared VAT total.
    pub fn report_vat_total(sum: Option<Amount>, declared: Amount, report: &mut ValidationReport)
        ensures
            final(report)@ == vat_total_reported(old(report)@, sum, declared),
    {
        let matches = match sum {
            Some(s) => amount_eq(s, declared),
            None => false,
        };
        if !matches {
            let message = join3(
                "Calculated VAT Amount (",
                Self::computed(sum).as_str(),
                ") mismatch",
            );
            let declared_text = amount_text(declared);
            report.add_error(
                CODE_VAT_TOTAL,
                message.as_str(),
                Some("totalVatAmount"),
                Some(declared_text.as_str()),
            );
        }
    }

    /// Records the outcome of the classification-total check for the sum
    /// `total` of the classification amounts, its distance `gap` from the
    /// declared net total, and that total.
    pub fn report_classification_total(
        total: Option<Amount>,
        gap: Option<Amount>,
        declared: Amount,
        report: &mut ValidationReport,
    )
        ensures
            final(report)@ == classification_total_reported(old(report)@, total, gap, declared),
    {
        if Self::exceeds_tolerance(gap) {
            let total_text = Self::computed(total);
            let mut message = String::from_str("Income Classification Total (");
            message.append(total_text.as_str());
            message.append(") mismatch with Net Value (");
            message.append(amount_text(declared).as_str());
            message.append(")");
            report.add_error(
                CODE_CLASSIFICATION_TOTAL,
                message.as_str(),
                Some("invoiceSummary.incomeClassification"),
                Some(total_text.as_str()),
            );
        }
    }

    /// Records the outcome of the VAT check of one line for the VAT
    /// `expected` that the line calls for and the distance `gap` of its VAT
    /// amount from it.
    pub fn report_line_vat(
        line: &InvoiceLine,
        expected: Option<Amount>,
        gap: Option<Amount>,
        report: &mut ValidationReport,
    )
        ensures
            final(report)@ == line_vat_reported(old(report)@, line@, expected, gap),
    {
        if Self::exceeds_tolerance(gap) {
            let message = Self::vat_message_of(line, expected);
            let found = amount_text(line.vat_amount);
            report.add_error(
                CODE_LINE_VAT,
                message.as_str(),
                Some("invoiceDetails.vatAmount"),
                Some(found.as_str()),
            );
        }
    }

    /// Totals reconciliation: the net values of the lines must add up to the
    /// declared net total, and the VAT amounts to the declared VAT total,
    /// exactly.
    pub fn check_totals(invoice: &Invoice, report: &mut ValidationReport)
        ensures
            final(report)@ == totals_checked(old(report)@, invoice@),
            sums_to(net_sum(invoice@), invoice@.totals.total_net_amount) && sums_to(
                vat_sum(invoice@),
                invoice@.totals.total_vat_amount,
            ) ==> final(report)@ == old(report)@,
    {
        let mut nets: Vec<Amount> = Vec::new();
        let mut vats: Vec<Amount> = Vec::new();
        let mut i: usize = 0;
        while i < invoice.lines.len()
            invariant
                0 <= i <= invoice.lines.len(),
                nets@.len() == i,
                vats@.len() == i,
                forall|k: int| 0 <= k < i ==> nets@[k] == invoice@.lines[k].net_value,
                forall|k: int| 0 <= k < i ==> vats@[k] == invoice@.lines[k].vat_amount,
            decreases invoice.lines.len() - i,
        {
            nets.push(invoice.lines[i].net_value);
            vats.push(invoice.lines[i].vat_amount);
            i = i + 1;
        }
        assert(nets@ =~= net_values(invoice@.lines));
        assert(vats@ =~= vat_amounts(invoice@.lines));
        let calc_net = Self::sum(&nets);
        let calc_vat = Self::sum(&vats);
        Self::report_net_total(calc_net, invoice.totals.total_net_amount, report);
        Self::report_vat_total(calc_vat, invoice.totals.total_vat_amount, report);
    }

    /// Tax identifier check: the identifier of a domestic issuer, and of a
    /// domestic counterpart, must pass the checksum.
    pub fn check_vat_numbers(invoice: &Invoice, report: &mut ValidationReport)
        ensures
            final(report)@ == vat_numbers_checked(old(report)@, invoice@),
    {
        if text_eq(invoice.issuer.country.as_str(), DOMESTIC_COUNTRY) && !validate_afm(
            invoice.issuer.vat_number.as_str(),
        ) {
            report.add_error(
                CODE_ISSUER_AFM,
                "Invalid Issuer VAT Number (AFM)",
                Some("issuer.vatNumber"),
                Some(invoice.issuer.vat_number.as_str()),
            );
        }
        match &invoice.counterpart {
            Some(cp) => {
                if text_eq(cp.country.as_str(), DOMESTIC_COUNTRY) && !validate_afm(
                    cp.vat_number.as_str(),
                ) {
                    report.add_error(
                        CODE_COUNTERPART_AFM,
                        "Invalid Counterpart VAT Number (AFM)",
                        Some("counterpart.vatNumber"),
                        Some(cp.vat_number.as_str()),
                    );
                }
            },
            None => {},
        }
    }

    /// Date check: the issue date must not lie after `today`.
    pub fn check_dates(invoice: &Invoice, today: CalendarDate, report: &mut ValidationReport)
        ensures
            final(report)@ == dates_checked(old(report)@, invoice@, today),
    {
        if invoice.header.issue_date.is_after(&today) {
            let printed = invoice.header.issue_date.to_text();
            report.add_error(
                CODE_FUTURE_DATE,
                "Issue date cannot be in the future",
                Some("invoiceHeader.issueDate"),
                Some(printed.as_str()),
            );
        }
    }

    /// The VAT that a line calls for: its net value times the rate of its
    /// category, rounded to two fractional digits; nothing where the
    /// multiplication overflows.
    pub fn expected_vat_of(line: &InvoiceLine) -> (expected: Option<Amount>)
        ensures
            expected == expected_vat(line@),
    {
        match checked_product(line.net_value, line.vat_category.rate()) {
            Some(p) => Some(round_half_away(p, VAT_DECIMALS)),
            None => None,
        }
    }

    /// The message of the finding for a line with a VAT mismatch.
    fn vat_message_of(line: &InvoiceLine, expected: Option<Amount>) -> (message: String)
        ensures
            message@ == vat_message(line@, expected),
    {
        let mut message = String::from_str("VAT Amount mismatch on Line ");
        message.append(i32_to_text(line.line_number).as_str());
        message.append(". Net: ");
        message.append(amount_text(line.net_value).as_str());
        message.append(", Rate: ");
        message.append(amount_text(line.vat_category.rate()).as_str());
        message.append(", Expected: ");
        message.append(Self::computed(expected).as_str());
        message.append(", Found: ");
        message.append(amount_text(line.vat_amount).as_str());
        message
    }

    /// Per-line VAT check: the VAT amount of each line must lie within the
    /// tolerance of the line's net value times the rate of its category,
    /// rounded to two fractional digits.
    pub fn check_line_vat_consistency(invoice: &Invoice, report: &mut ValidationReport)
        ensures
            final(report)@ == line_vat_checked(
                old(report)@,
                invoice@.lines,
                invoice@.lines.len(),
            ),
    {
        let ghost start = report@;
        let mut i: usize = 0;
        while i < invoice.lines.len()
            invariant
                0 <= i <= invoice.lines.len(),
                report@ == line_vat_checked(start, invoice@.lines, i as nat),
            decreases invoice.lines.len() - i,
        {
            let line = &invoice.lines[i];
            let expected = Self::expected_vat_of(line);
            let gap = Self::distance_between(expected, line.vat_amount);
            Self::report_line_vat(line, expected, gap, report);
            i = i + 1;
        }
    }

    /// Classification-total check: the amounts of the classifications must
    /// add up to the declared net total, within the tolerance.
    pub fn check_classifications(invoice: &Invoice, report: &mut ValidationReport)
        ensures
            final(report)@ == classifications_checked(old(report)@, invoice@),
    {
        let mut amounts: Vec<Amount> = Vec::new();
        let mut i: usize = 0;
        while i < invoice.income_classifications.len()
            invariant
                0 <= i <= invoice.income_classifications.len(),
                amounts@.len() == i,
                forall|k: int|
                    0 <= k < i ==> amounts@[k] == invoice@.income_classifications[k].amount,
            decreases invoice.income_classifications.len() - i,
        {
            amounts.push(invoice.income_classifications[i].amount);
            i = i + 1;
        }
        assert(amounts@ =~= classified_amounts(invoice@.income_classifications));
        let total = Self::sum(&amounts);
        let gap = Self::distance_between(total, invoice.totals.total_net_amount);
        Self::report_classification_total(total, gap, invoice.totals.total_net_amount, report);
    }
}

} // verus!
