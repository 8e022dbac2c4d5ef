use aade_validator::date::CalendarDate;
use aade_validator::decimal::Amount;
use aade_validator::domain::classification::IncomeClassification;
use aade_validator::domain::enums::{InvoiceType, VatCategory};
use aade_validator::domain::invoice::{Counterpart, Invoice, InvoiceHeader, InvoiceLine, Issuer};
use aade_validator::domain::totals::InvoiceTotals;
use aade_validator::validation::business_rules::BusinessRules;
use aade_validator::validation::result::{Severity, ValidationReport, ValidationStatus};
use aade_validator::validation::rules_engine::{RuleDefinition, RuleLogic, RuleSet, RulesEngine};

fn cents(n: i64) -> Amount {
    Amount::new(n, 2)
}

fn item(number: i32, net: i64, category: VatCategory, vat: i64) -> InvoiceLine {
    InvoiceLine {
        line_number: number,
        description: "item".to_string(),
        net_value: cents(net),
        vat_category: category,
        vat_amount: cents(vat),
        quantity: None,
        measurement_unit: None,
    }
}

fn classified(amount: i64) -> IncomeClassification {
    IncomeClassification {
        classification_type: Some("E3_561_001".to_string()),
        classification_category: Some("category1_1".to_string()),
        amount: cents(amount),
    }
}

fn sound_invoice() -> Invoice {
    Invoice {
        uid: None,
        header: InvoiceHeader {
            series: "A".to_string(),
            aa: "1".to_string(),
            issue_date: CalendarDate::from_ymd(2023, 10, 27).unwrap(),
            issue_time: None,
            invoice_type: InvoiceType::SalesInvoice,
            currency: "EUR".to_string(),
            exchange_rate: None,
        },
        issuer: Issuer { vat_number: "090000045".to_string(), country: "GR".to_string(), branch: 0 },
        counterpart: Some(Counterpart {
            vat_number: "123456783".to_string(),
            country: "GR".to_string(),
            branch: 0,
            name: None,
        }),
        lines: vec![item(1, 10000, VatCategory::Vat24, 2400)],
        totals: InvoiceTotals {
            total_net_amount: cents(10000),
            total_vat_amount: cents(2400),
            total_withheld_amount: cents(0),
            total_fees_amount: cents(0),
            total_stamp_duty_amount: cents(0),
            total_deductions_amount: cents(0),
            total_gross_amount: cents(12400),
        },
        vat_breakdown: Vec::new(),
        income_classifications: vec![classified(10000)],
    }
}

fn counterpart_rule() -> Result<RulesEngine, String> {
    Ok(RulesEngine::from_rule_set(RuleSet {
        version: "1".to_string(),
        rules: vec![RuleDefinition {
            id: "DR-CP".to_string(),
            description: "Counterpart needed".to_string(),
            severity: Severity::Error,
            logic: RuleLogic::CounterpartRequired { invoice_types: vec!["1.1".to_string()] },
            error_message: "Counterpart is required".to_string(),
        }],
    }))
}

fn no_rules() -> Result<RulesEngine, String> {
    Ok(RulesEngine::new())
}

fn today() -> CalendarDate {
    CalendarDate::from_ymd(2024, 1, 15).unwrap()
}

fn codes(report: &ValidationReport) -> Vec<String> {
    report.errors.iter().map(|e| e.code.clone()).collect()
}

#[test]
fn sound_invoice_is_clean_end_to_end() {
    let invoice = sound_invoice();
    let report = BusinessRules::validate(&invoice, &counterpart_rule());
    assert_eq!(report.status, ValidationStatus::Green, "{:?}", report.errors);
    assert!(report.errors.is_empty());
    assert_eq!(report.risk_score, 0);
    assert!(report.suggestions.is_empty());
    let report = BusinessRules::validate_on(&invoice, &counterpart_rule(), today());
    assert_eq!(report.status, ValidationStatus::Green, "{:?}", report.errors);
    assert!(report.errors.is_empty());
}

#[test]
fn totals_mismatch_is_rejected_with_both_codes() {
    let mut invoice = sound_invoice();
    invoice.totals.total_net_amount = cents(10001);
    invoice.totals.total_vat_amount = cents(2399);
    let report = BusinessRules::validate(&invoice, &no_rules());
    assert_eq!(report.status, ValidationStatus::Red);
    assert_eq!(report.risk_score, 100);
    assert!(report.errors.iter().any(|m| m.code == "BR-001"));
    assert!(report.errors.iter().any(|m| m.code == "BR-002"));
}

#[test]
fn matching_totals_add_no_finding() {
    let mut invoice = sound_invoice();
    invoice.lines = vec![
        item(1, 10000, VatCategory::Vat24, 2400),
        item(2, 5050, VatCategory::Vat13, 657),
        item(3, -1000, VatCategory::Vat24, -240),
    ];
    invoice.totals.total_net_amount = cents(14050);
    invoice.totals.total_vat_amount = cents(2817);
    let mut report = ValidationReport::new();
    BusinessRules::check_totals(&invoice, &mut report);
    assert_eq!(report.status, ValidationStatus::Green);
    assert!(report.errors.is_empty());
}

#[test]
fn totals_are_compared_by_value_not_by_scale() {
    let mut invoice = sound_invoice();
    invoice.totals.total_net_amount = Amount::new(100, 0);
    invoice.totals.total_vat_amount = Amount::new(24000, 3);
    let mut report = ValidationReport::new();
    BusinessRules::check_totals(&invoice, &mut report);
    assert!(report.errors.is_empty());
}

#[test]
fn net_total_off_by_one_cent_is_reported_exactly() {
    let mut invoice = sound_invoice();
    invoice.totals.total_net_amount = cents(10001);
    let mut report = ValidationReport::new();
    BusinessRules::check_totals(&invoice, &mut report);
    assert_eq!(report.status, ValidationStatus::Red);
    assert_eq!(codes(&report), vec!["BR-001"]);
    let f = &report.errors[0];
    assert_eq!(f.reason, "Calculated Net Amount (100.00) mismatch");
    assert_eq!(f.field.as_deref(), Some("totalNetValue"));
    assert_eq!(f.value_found.as_deref(), Some("100.01"));
    assert_eq!(f.severity, Severity::Error);
}

#[test]
fn vat_total_mismatch_is_reported_exactly() {
    let mut invoice = sound_invoice();
    invoice.totals.total_vat_amount = cents(2500);
    let mut report = ValidationReport::new();
    BusinessRules::check_totals(&invoice, &mut report);
    assert_eq!(codes(&report), vec!["BR-002"]);
    let f = &report.errors[0];
    assert_eq!(f.reason, "Calculated VAT Amount (24.00) mismatch");
    assert_eq!(f.field.as_deref(), Some("totalVatAmount"));
    assert_eq!(f.value_found.as_deref(), Some("25.00"));
}

#[test]
fn invoice_without_lines_sums_to_zero() {
    let mut invoice = sound_invoice();
    invoice.lines = Vec::new();
    invoice.totals.total_net_amount = cents(0);
    invoice.totals.total_vat_amount = cents(0);
    let mut report = ValidationReport::new();
    BusinessRules::check_totals(&invoice, &mut report);
    assert!(report.errors.is_empty());
    invoice.totals.total_net_amount = cents(1);
    BusinessRules::check_totals(&invoice, &mut report);
    assert_eq!(codes(&report), vec!["BR-001"]);
    assert_eq!(report.errors[0].reason, "Calculated Net Amount (0) mismatch");
}

#[test]
fn overflowing_sum_is_a_mismatch() {
    let max: i128 = 79_228_162_514_264_337_593_543_950_335;
    let huge = Amount::from_parts(max, 0).unwrap();
    let mut invoice = sound_invoice();
    invoice.lines = vec![item(1, 0, VatCategory::Vat0, 0), item(2, 0, VatCategory::Vat0, 0)];
    invoice.lines[0].net_value = huge;
    invoice.lines[1].net_value = huge;
    invoice.totals.total_net_amount = huge;
    invoice.totals.total_vat_amount = cents(0);
    let mut report = ValidationReport::new();
    BusinessRules::check_totals(&invoice, &mut report);
    assert_eq!(codes(&report), vec!["BR-001"]);
    assert_eq!(report.errors[0].reason, "Calculated Net Amount (overflow) mismatch");
}

#[test]
fn line_vat_matching_the_rate_is_accepted() {
    let invoice = sound_invoice();
    let mut report = ValidationReport::new();
    BusinessRules::check_line_vat_consistency(&invoice, &mut report);
    assert!(report.errors.is_empty());
    assert_eq!(report.status, ValidationStatus::Green);
}

#[test]
fn line_vat_far_from_the_rate_is_a_finding() {
    let mut invoice = sound_invoice();
    invoice.lines = vec![item(1, 10000, VatCategory::Vat24, 3000)];
    let mut report = ValidationReport::new();
    BusinessRules::check_line_vat_consistency(&invoice, &mut report);
    assert_eq!(report.status, ValidationStatus::Red);
    assert_eq!(codes(&report), vec!["BR-VAT-CALC"]);
    let f = &report.errors[0];
    assert_eq!(
        f.reason,
        "VAT Amount mismatch on Line 1. Net: 100.00, Rate: 0.24, Expected: 24.00, Found: 30.00"
    );
    assert_eq!(f.field.as_deref(), Some("invoiceDetails.vatAmount"));
    assert_eq!(f.value_found.as_deref(), Some("30.00"));
}

#[test]
fn line_vat_tolerance_is_five_cents_either_way() {
    let check = |vat: i64| {
        let mut invoice = sound_invoice();
        invoice.lines = vec![item(1, 10000, VatCategory::Vat24, vat)];
        let mut report = ValidationReport::new();
        BusinessRules::check_line_vat_consistency(&invoice, &mut report);
        report.errors.len()
    };
    assert_eq!(check(2400), 0);
    assert_eq!(check(2405), 0);
    assert_eq!(check(2395), 0);
    assert_eq!(check(2406), 1);
    assert_eq!(check(2394), 1);
}

#[test]
fn expected_vat_is_rounded_half_away_from_zero() {
    // 0.25 * 0.06 = 0.015, which rounds to 0.02; 0.07 is then within the
    // tolerance and 0.08 is not. Rounded down to 0.01, 0.07 would be out.
    let check = |net: i64, vat: i64| {
        let mut invoice = sound_invoice();
        invoice.lines = vec![item(1, net, VatCategory::Vat6, vat)];
        let mut report = ValidationReport::new();
        BusinessRules::check_line_vat_consistency(&invoice, &mut report);
        report.errors.iter().map(|e| e.reason.clone()).collect::<Vec<_>>()
    };
    assert!(check(25, 7).is_empty());
    assert_eq!(
        check(25, 8),
        vec!["VAT Amount mismatch on Line 1. Net: 0.25, Rate: 0.06, Expected: 0.02, Found: 0.08"]
    );
    assert!(check(-25, -7).is_empty());
    assert_eq!(
        check(-25, -8),
        vec!["VAT Amount mismatch on Line 1. Net: -0.25, Rate: 0.06, Expected: -0.02, Found: -0.08"]
    );
}

#[test]
fn every_mismatching_line_is_named() {
    let mut invoice = sound_invoice();
    invoice.lines = vec![
        item(10, 10000, VatCategory::Vat24, 0),
        item(20, 10000, VatCategory::Vat13, 1300),
        item(30, 10000, VatCategory::Excluded, 100),
    ];
    let mut report = ValidationReport::new();
    BusinessRules::check_line_vat_consistency(&invoice, &mut report);
    assert_eq!(report.errors.len(), 2);
    assert!(report.errors[0].reason.starts_with("VAT Amount mismatch on Line 10."));
    assert!(report.errors[1].reason.starts_with("VAT Amount mismatch on Line 30."));
}

#[test]
fn classifications_must_add_up_to_the_net_total() {
    let mut invoice = sound_invoice();
    invoice.income_classifications = vec![classified(6000), classified(4003)];
    let mut report = ValidationReport::new();
    BusinessRules::check_classifications(&invoice, &mut report);
    assert!(report.errors.is_empty());

    invoice.income_classifications = vec![classified(6000), classified(3990)];
    BusinessRules::check_classifications(&invoice, &mut report);
    assert_eq!(codes(&report), vec!["BR-CLS-TOTAL"]);
    let f = &report.errors[0];
    assert_eq!(f.reason, "Income Classification Total (99.90) mismatch with Net Value (100.00)");
    assert_eq!(f.field.as_deref(), Some("invoiceSummary.incomeClassification"));
    assert_eq!(f.value_found.as_deref(), Some("99.90"));
}

#[test]
fn missing_classifications_count_as_zero() {
    let mut invoice = sound_invoice();
    invoice.income_classifications = Vec::new();
    let mut report = ValidationReport::new();
    BusinessRules::check_classifications(&invoice, &mut report);
    assert_eq!(codes(&report), vec!["BR-CLS-TOTAL"]);
    assert_eq!(
        report.errors[0].reason,
        "Income Classification Total (0) mismatch with Net Value (100.00)"
    );
    invoice.totals.total_net_amount = cents(5);
    let mut report = ValidationReport::new();
    BusinessRules::check_classifications(&invoice, &mut report);
    assert!(report.errors.is_empty());
}

#[test]
fn domestic_tax_identifiers_must_pass_the_checksum() {
    let mut invoice = sound_invoice();
    invoice.issuer.vat_number = "090000046".to_string();
    invoice.counterpart.as_mut().unwrap().vat_number = "12345".to_string();
    let mut report = ValidationReport::new();
    BusinessRules::check_vat_numbers(&invoice, &mut report);
    assert_eq!(codes(&report), vec!["BR-003", "BR-004"]);
    assert_eq!(report.errors[0].reason, "Invalid Issuer VAT Number (AFM)");
    assert_eq!(report.errors[0].field.as_deref(), Some("issuer.vatNumber"));
    assert_eq!(report.errors[0].value_found.as_deref(), Some("090000046"));
    assert_eq!(report.errors[1].reason, "Invalid Counterpart VAT Number (AFM)");
    assert_eq!(report.errors[1].field.as_deref(), Some("counterpart.vatNumber"));
    assert_eq!(report.errors[1].value_found.as_deref(), Some("12345"));
}

#[test]
fn foreign_tax_identifiers_are_not_checked() {
    let mut invoice = sound_invoice();
    invoice.issuer.country = "DE".to_string();
    invoice.issuer.vat_number = "DE123".to_string();
    invoice.counterpart.as_mut().unwrap().country = "gr".to_string();
    invoice.counterpart.as_mut().unwrap().vat_number = "x".to_string();
    let mut report = ValidationReport::new();
    BusinessRules::check_vat_numbers(&invoice, &mut report);
    assert!(report.errors.is_empty());
    invoice.counterpart = None;
    BusinessRules::check_vat_numbers(&invoice, &mut report);
    assert!(report.errors.is_empty());
}

#[test]
fn issue_date_in_the_future_is_a_finding() {
    let mut invoice = sound_invoice();
    invoice.header.issue_date = CalendarDate::from_ymd(2024, 1, 16).unwrap();
    let mut report = ValidationReport::new();
    BusinessRules::check_dates(&invoice, today(), &mut report);
    assert_eq!(codes(&report), vec!["BR-005"]);
    assert_eq!(report.errors[0].reason, "Issue date cannot be in the future");
    assert_eq!(report.errors[0].field.as_deref(), Some("invoiceHeader.issueDate"));
    assert_eq!(report.errors[0].value_found.as_deref(), Some("2024-01-16"));
}

#[test]
fn issue_date_of_today_or_earlier_is_accepted() {
    let mut invoice = sound_invoice();
    let mut report = ValidationReport::new();
    invoice.header.issue_date = today();
    BusinessRules::check_dates(&invoice, today(), &mut report);
    invoice.header.issue_date = CalendarDate::from_ymd(2023, 12, 31).unwrap();
    BusinessRules::check_dates(&invoice, today(), &mut report);
    assert!(report.errors.is_empty());
}

#[test]
fn validation_reads_the_clock() {
    let mut invoice = sound_invoice();
    invoice.header.issue_date = CalendarDate::from_ymd(9999, 12, 31).unwrap();
    let report = BusinessRules::validate(&invoice, &no_rules());
    assert_eq!(codes(&report), vec!["BR-005"]);
    invoice.header.issue_date = CalendarDate::from_ymd(2000, 1, 1).unwrap();
    let report = BusinessRules::validate(&invoice, &no_rules());
    assert!(report.errors.is_empty());
}

#[test]
fn checks_run_in_a_fixed_order() {
    let mut invoice = sound_invoice();
    invoice.lines = vec![item(1, 10000, VatCategory::Vat24, 3000)];
    invoice.income_classifications = Vec::new();
    invoice.totals.total_net_amount = cents(10001);
    invoice.issuer.vat_number = "1".to_string();
    invoice.counterpart = None;
    invoice.header.issue_date = CalendarDate::from_ymd(2024, 1, 16).unwrap();
    let report = BusinessRules::validate_on(&invoice, &counterpart_rule(), today());
    assert_eq!(
        codes(&report),
        vec!["BR-VAT-CALC", "BR-CLS-TOTAL", "BR-001", "BR-002", "BR-003", "BR-005", "DR-CP"]
    );
    assert_eq!(report.status, ValidationStatus::Red);
    assert_eq!(report.risk_score, 100);
}

#[test]
fn unloadable_rule_set_becomes_one_finding() {
    let invoice = sound_invoice();
    let rules: Result<RulesEngine, String> = Err("rules: missing field `id`".to_string());
    let report = BusinessRules::validate_on(&invoice, &rules, today());
    assert_eq!(report.status, ValidationStatus::Red);
    assert_eq!(codes(&report), vec!["SYS-001"]);
    let f = &report.errors[0];
    assert_eq!(f.reason, "Failed to load validation rules: rules: missing field `id`");
    assert_eq!(f.field, None);
    assert_eq!(f.value_found, None);
}

#[test]
fn warning_rule_leaves_the_invoice_valid() {
    let mut invoice = sound_invoice();
    invoice.counterpart = None;
    let rules = Ok(RulesEngine::from_rule_set(RuleSet {
        version: "1".to_string(),
        rules: vec![RuleDefinition {
            id: "DR-CP".to_string(),
            description: "Counterpart wanted".to_string(),
            severity: Severity::Warning,
            logic: RuleLogic::CounterpartRequired { invoice_types: vec!["1.1".to_string()] },
            error_message: "Counterpart is recommended".to_string(),
        }],
    }));
    let report = BusinessRules::validate_on(&invoice, &rules, today());
    assert_eq!(report.status, ValidationStatus::Yellow);
    assert_eq!(report.risk_score, 30);
    assert_eq!(codes(&report), vec!["DR-CP"]);
    assert_eq!(report.errors[0].severity, Severity::Warning);
}

#[test]
fn amounts_are_added_up_from_zero() {
    assert_eq!(BusinessRules::sum(&Vec::new()).unwrap().to_text(), "0");
    let total = BusinessRules::sum(&vec![cents(10000), cents(5050), cents(-1000)]).unwrap();
    assert_eq!(total.to_text(), "140.50");
    let max = Amount::from_parts(79_228_162_514_264_337_593_543_950_335, 0).unwrap();
    assert!(BusinessRules::sum(&vec![max, max]).is_none());
    assert!(BusinessRules::sum(&vec![max, max, cents(0)]).is_none());
}

#[test]
fn distance_is_the_absolute_difference() {
    assert_eq!(BusinessRules::distance_between(Some(cents(2400)), cents(2406)).unwrap().to_text(), "0.06");
    assert_eq!(BusinessRules::distance_between(Some(cents(2406)), cents(2400)).unwrap().to_text(), "0.06");
    assert_eq!(BusinessRules::distance_between(Some(cents(2400)), cents(2400)).unwrap().to_text(), "0.00");
    assert!(BusinessRules::distance_between(None, cents(2400)).is_none());
    let max = Amount::from_parts(79_228_162_514_264_337_593_543_950_335, 0).unwrap();
    let min = Amount::from_parts(-79_228_162_514_264_337_593_543_950_335, 0).unwrap();
    assert!(BusinessRules::distance_between(Some(max), min).is_none());
}

#[test]
fn tolerance_is_five_hundredths() {
    assert!(!BusinessRules::exceeds_tolerance(Some(cents(0))));
    assert!(!BusinessRules::exceeds_tolerance(Some(cents(5))));
    assert!(!BusinessRules::exceeds_tolerance(Some(Amount::new(50, 3))));
    assert!(BusinessRules::exceeds_tolerance(Some(Amount::new(51, 3))));
    assert!(BusinessRules::exceeds_tolerance(Some(cents(6))));
    assert!(BusinessRules::exceeds_tolerance(None));
}

#[test]
fn expected_vat_is_net_times_rate_rounded_to_cents() {
    let expected = |net: i64, category| {
        BusinessRules::expected_vat_of(&item(1, net, category, 0)).map(|a| a.to_text())
    };
    assert_eq!(expected(10000, VatCategory::Vat24).as_deref(), Some("24.00"));
    assert_eq!(expected(10000, VatCategory::Vat13).as_deref(), Some("13.00"));
    assert_eq!(expected(333, VatCategory::Vat17).as_deref(), Some("0.57"));
    assert_eq!(expected(25, VatCategory::Vat6).as_deref(), Some("0.02"));
    assert_eq!(expected(-25, VatCategory::Vat6).as_deref(), Some("-0.02"));
    assert_eq!(expected(10000, VatCategory::Excluded).as_deref(), Some("0"));
}

#[test]
fn line_vat_finding_is_decided_by_the_distance() {
    let line = item(3, 10000, VatCategory::Vat24, 3000);
    let mut report = ValidationReport::new();
    BusinessRules::report_line_vat(&line, Some(cents(2400)), Some(cents(5)), &mut report);
    assert!(report.errors.is_empty());
    BusinessRules::report_line_vat(&line, Some(cents(2400)), Some(cents(600)), &mut report);
    assert_eq!(codes(&report), vec!["BR-VAT-CALC"]);
    assert_eq!(
        report.errors[0].reason,
        "VAT Amount mismatch on Line 3. Net: 100.00, Rate: 0.24, Expected: 24.00, Found: 30.00"
    );
    let mut report = ValidationReport::new();
    BusinessRules::report_line_vat(&line, None, None, &mut report);
    assert_eq!(
        report.errors[0].reason,
        "VAT Amount mismatch on Line 3. Net: 100.00, Rate: 0.24, Expected: overflow, Found: 30.00"
    );
}

#[test]
fn total_findings_are_decided_by_the_sums() {
    let mut report = ValidationReport::new();
    BusinessRules::report_net_total(Some(cents(10000)), Amount::new(100, 0), &mut report);
    BusinessRules::report_vat_total(Some(cents(2400)), cents(2400), &mut report);
    assert!(report.errors.is_empty());
    BusinessRules::report_net_total(Some(cents(10000)), cents(10001), &mut report);
    BusinessRules::report_vat_total(None, cents(2400), &mut report);
    assert_eq!(codes(&report), vec!["BR-001", "BR-002"]);
    assert_eq!(report.errors[0].reason, "Calculated Net Amount (100.00) mismatch");
    assert_eq!(report.errors[0].value_found.as_deref(), Some("100.01"));
    assert_eq!(report.errors[1].reason, "Calculated VAT Amount (overflow) mismatch");
    assert_eq!(report.errors[1].value_found.as_deref(), Some("24.00"));
}

#[test]
fn classification_finding_is_decided_by_the_distance() {
    let mut report = ValidationReport::new();
    BusinessRules::report_classification_total(Some(cents(9996)), Some(cents(4)), cents(10000), &mut report);
    assert!(report.errors.is_empty());
    BusinessRules::report_classification_total(Some(cents(9990)), Some(cents(10)), cents(10000), &mut report);
    assert_eq!(codes(&report), vec!["BR-CLS-TOTAL"]);
    assert_eq!(
        report.errors[0].reason,
        "Income Classification Total (99.90) mismatch with Net Value (100.00)"
    );
    assert_eq!(report.errors[0].value_found.as_deref(), Some("99.90"));
}

#[test]
fn rejection_by_totals_carries_the_highest_risk() {
    let mut invoice = sound_invoice();
    invoice.totals.total_vat_amount = cents(1);
    let report = BusinessRules::validate_on(&invoice, &counterpart_rule(), today());
    assert_eq!(report.status, ValidationStatus::Red);
    assert_eq!(report.risk_score, 100);
    assert!(!report.is_valid());
}
