use aade_validator::date::CalendarDate;
use aade_validator::decimal::Amount;
use aade_validator::domain::classification::IncomeClassification;
use aade_validator::domain::enums::{InvoiceType, VatCategory};
use aade_validator::domain::invoice::{Counterpart, Invoice, InvoiceHeader, InvoiceLine, Issuer};
use aade_validator::domain::totals::InvoiceTotals;
use aade_validator::validation::result::{Severity, ValidationReport, ValidationStatus};
use aade_validator::validation::rules_engine::{RuleDefinition, RuleLogic, RuleSet, RulesEngine};

fn row(number: i32, net: i64, category: VatCategory) -> InvoiceLine {
    InvoiceLine {
        line_number: number,
        description: "item".to_string(),
        net_value: Amount::new(net, 2),
        vat_category: category,
        vat_amount: Amount::new(0, 2),
        quantity: None,
        measurement_unit: None,
    }
}

fn sample(kind: InvoiceType, lines: Vec<InvoiceLine>) -> Invoice {
    Invoice {
        uid: None,
        header: InvoiceHeader {
            series: "A".to_string(),
            aa: "1".to_string(),
            issue_date: CalendarDate::from_ymd(2023, 10, 27).unwrap(),
            issue_time: None,
            invoice_type: kind,
            currency: "EUR".to_string(),
            exchange_rate: None,
        },
        issuer: Issuer { vat_number: "090000045".to_string(), country: "GR".to_string(), branch: 0 },
        counterpart: None,
        lines,
        totals: InvoiceTotals::default(),
        vat_breakdown: Vec::new(),
        income_classifications: Vec::new(),
    }
}

fn rule(id: &str, severity: Severity, message: &str, logic: RuleLogic) -> RuleDefinition {
    RuleDefinition {
        id: id.to_string(),
        description: "".to_string(),
        severity,
        logic,
        error_message: message.to_string(),
    }
}

fn list(items: &[&str]) -> Vec<String> {
    items.iter().map(|s| s.to_string()).collect()
}

fn run(rules: Vec<RuleDefinition>, invoice: &Invoice) -> ValidationReport {
    let engine = RulesEngine::from_rule_set(RuleSet { version: "1".to_string(), rules });
    let mut report = ValidationReport::new();
    engine.apply(invoice, &mut report);
    report
}

fn found(report: &ValidationReport) -> Vec<(String, String, Option<String>, Option<String>)> {
    report
        .errors
        .iter()
        .map(|e| (e.code.clone(), e.reason.clone(), e.field.clone(), e.value_found.clone()))
        .collect()
}

fn finding(code: &str, reason: &str, field: Option<&str>, value: Option<&str>) -> (String, String, Option<String>, Option<String>) {
    (code.to_string(), reason.to_string(), field.map(|s| s.to_string()), value.map(|s| s.to_string()))
}

#[test]
fn engine_without_rules_finds_nothing() {
    let engine = RulesEngine::new();
    assert_eq!(engine.rule_count(), 0);
    let mut report = ValidationReport::new();
    engine.apply(&sample(InvoiceType::SalesInvoice, vec![row(1, 100, VatCategory::Vat24)]), &mut report);
    assert_eq!(report.status, ValidationStatus::Green);
    assert!(report.errors.is_empty());
}

#[test]
fn line_value_must_be_allowed_on_every_line() {
    let invoice = sample(
        InvoiceType::SalesInvoice,
        vec![row(10, 100, VatCategory::Vat24), row(20, 100, VatCategory::Vat6), row(30, 100, VatCategory::Vat13), row(40, 100, VatCategory::Excluded)],
    );
    let report = run(
        vec![rule(
            "DR-1",
            Severity::Error,
            "Line {line}: category not allowed ({line})",
            RuleLogic::LineValueAllowed { field_path: "vat_category".to_string(), allowed_values: list(&["1", "2"]) },
        )],
        &invoice,
    );
    assert_eq!(report.status, ValidationStatus::Red);
    // Lines are numbered by position, not by their line number.
    assert_eq!(
        found(&report),
        vec![
            finding("DR-1", "Line 2: category not allowed (2)", Some("line[2].vat_category"), Some("3")),
            finding("DR-1", "Line 4: category not allowed (4)", Some("line[4].vat_category"), Some("8")),
        ]
    );
}

#[test]
fn unknown_line_field_matches_nothing() {
    let invoice = sample(InvoiceType::SalesInvoice, vec![row(1, 100, VatCategory::Excluded)]);
    let report = run(
        vec![rule(
            "DR-1",
            Severity::Error,
            "Line {line}",
            RuleLogic::LineValueAllowed { field_path: "net_value".to_string(), allowed_values: list(&["1"]) },
        )],
        &invoice,
    );
    assert_eq!(report.status, ValidationStatus::Green);
    assert!(report.errors.is_empty());
}

#[test]
fn header_value_implies_line_constraint() {
    let logic = || RuleLogic::HeaderDependencyLine {
        header_field: "invoice_type".to_string(),
        header_value: "1.1".to_string(),
        line_check_field: "vat_category".to_string(),
        allowed_values: list(&["1"]),
    };
    let lines = || vec![row(1, 100, VatCategory::Vat24), row(2, 100, VatCategory::Vat0)];
    let report = run(vec![rule("DR-2", Severity::Error, "Line {line}", logic())], &sample(InvoiceType::SalesInvoice, lines()));
    assert_eq!(found(&report), vec![finding("DR-2", "Line 2", Some("line[2].vat_category"), Some("7"))]);
    let report = run(vec![rule("DR-2", Severity::Error, "Line {line}", logic())], &sample(InvoiceType::ServiceInvoice, lines()));
    assert!(report.errors.is_empty());
}

#[test]
fn unknown_header_or_line_field_matches_nothing() {
    let invoice = sample(InvoiceType::SalesInvoice, vec![row(1, 100, VatCategory::Vat0)]);
    let report = run(
        vec![
            rule(
                "DR-2",
                Severity::Error,
                "x",
                RuleLogic::HeaderDependencyLine {
                    header_field: "currency".to_string(),
                    header_value: "1.1".to_string(),
                    line_check_field: "vat_category".to_string(),
                    allowed_values: list(&["1"]),
                },
            ),
            rule(
                "DR-3",
                Severity::Error,
                "x",
                RuleLogic::HeaderDependencyLine {
                    header_field: "invoice_type".to_string(),
                    header_value: "1.1".to_string(),
                    line_check_field: "quantity".to_string(),
                    allowed_values: list(&["1"]),
                },
            ),
        ],
        &invoice,
    );
    assert!(report.errors.is_empty());
}

#[test]
fn counterpart_is_required_for_listed_types() {
    let logic = || RuleLogic::CounterpartRequired { invoice_types: list(&["1.1", "1.2"]) };
    let mut invoice = sample(InvoiceType::SalesInvoiceIntra, Vec::new());
    let report = run(vec![rule("DR-CP", Severity::Error, "Counterpart missing", logic())], &invoice);
    assert_eq!(found(&report), vec![finding("DR-CP", "Counterpart missing", Some("counterpart"), None)]);
    invoice.counterpart = Some(Counterpart { vat_number: "".to_string(), country: "".to_string(), branch: 0, name: None });
    assert!(run(vec![rule("DR-CP", Severity::Error, "Counterpart missing", logic())], &invoice).errors.is_empty());
    let retail = sample(InvoiceType::RetailReceipt, Vec::new());
    assert!(run(vec![rule("DR-CP", Severity::Error, "Counterpart missing", logic())], &retail).errors.is_empty());
}

#[test]
fn classifications_are_required_with_a_minimum_count() {
    let logic = |min| RuleLogic::ClassificationRequired { invoice_types: list(&["1.1"]), min_classifications: min };
    let mut invoice = sample(InvoiceType::SalesInvoice, Vec::new());
    invoice.income_classifications = vec![IncomeClassification { classification_type: None, classification_category: None, amount: Amount::zero() }];
    let report = run(vec![rule("DR-CLS", Severity::Error, "Found {count}, need more", logic(2))], &invoice);
    assert_eq!(found(&report), vec![finding("DR-CLS", "Found 1, need more", Some("incomeClassification"), None)]);
    assert!(run(vec![rule("DR-CLS", Severity::Error, "Found {count}", logic(1))], &invoice).errors.is_empty());
    assert!(run(vec![rule("DR-CLS", Severity::Error, "Found {count}", logic(0))], &invoice).errors.is_empty());
}

#[test]
fn foreign_currency_needs_an_exchange_rate() {
    let logic = || RuleLogic::CurrencyExchangeRate { default_currency: "EUR".to_string() };
    let mut invoice = sample(InvoiceType::SalesInvoice, Vec::new());
    assert!(run(vec![rule("DR-FX", Severity::Error, "Rate missing", logic())], &invoice).errors.is_empty());
    invoice.header.currency = "USD".to_string();
    let report = run(vec![rule("DR-FX", Severity::Error, "Rate missing", logic())], &invoice);
    assert_eq!(found(&report), vec![finding("DR-FX", "Rate missing", Some("exchangeRate"), Some("USD"))]);
    invoice.header.exchange_rate = Some(Amount::new(108, 2));
    assert!(run(vec![rule("DR-FX", Severity::Error, "Rate missing", logic())], &invoice).errors.is_empty());
}

#[test]
fn counterpart_country_must_not_be_excluded() {
    let logic = || RuleLogic::CounterpartCountry { invoice_types: list(&["1.2"]), excluded_countries: list(&["GR", "CY"]) };
    let cp = |country: &str| Some(Counterpart { vat_number: "1".to_string(), country: country.to_string(), branch: 0, name: None });
    let mut invoice = sample(InvoiceType::SalesInvoiceIntra, Vec::new());
    assert!(run(vec![rule("DR-CC", Severity::Error, "Wrong country", logic())], &invoice).errors.is_empty());
    invoice.counterpart = cp("DE");
    assert!(run(vec![rule("DR-CC", Severity::Error, "Wrong country", logic())], &invoice).errors.is_empty());
    invoice.counterpart = cp("CY");
    let report = run(vec![rule("DR-CC", Severity::Error, "Wrong country", logic())], &invoice);
    assert_eq!(found(&report), vec![finding("DR-CC", "Wrong country", Some("counterpart.country"), Some("CY"))]);
    invoice.header.invoice_type = InvoiceType::SalesInvoice;
    assert!(run(vec![rule("DR-CC", Severity::Error, "Wrong country", logic())], &invoice).errors.is_empty());
}

#[test]
fn credit_notes_need_negative_amounts() {
    let logic = || RuleLogic::NegativeAmountsOnly { invoice_types: list(&["5.1"]) };
    let lines = || vec![row(1, -100, VatCategory::Vat24), row(2, 0, VatCategory::Vat24), row(3, 250, VatCategory::Vat24)];
    let report = run(vec![rule("DR-NEG", Severity::Error, "Line {line} must be negative", logic())], &sample(InvoiceType::CreditNote, lines()));
    assert_eq!(
        found(&report),
        vec![
            finding("DR-NEG", "Line 2 must be negative", Some("line[2].netValue"), Some("0.00")),
            finding("DR-NEG", "Line 3 must be negative", Some("line[3].netValue"), Some("2.50")),
        ]
    );
    assert!(run(vec![rule("DR-NEG", Severity::Error, "x", logic())], &sample(InvoiceType::SalesInvoice, lines())).errors.is_empty());
}

#[test]
fn normal_invoices_need_non_negative_amounts() {
    let logic = || RuleLogic::NoNegativeAmounts { invoice_types: list(&["1.1"]) };
    let lines = || vec![row(1, -100, VatCategory::Vat24), row(2, 0, VatCategory::Vat24), row(3, 250, VatCategory::Vat24)];
    let report = run(vec![rule("DR-POS", Severity::Error, "Line {line} is negative", logic())], &sample(InvoiceType::SalesInvoice, lines()));
    assert_eq!(found(&report), vec![finding("DR-POS", "Line 1 is negative", Some("line[1].netValue"), Some("-1.00"))]);
    assert!(run(vec![rule("DR-POS", Severity::Error, "x", logic())], &sample(InvoiceType::CreditNote, lines())).errors.is_empty());
}

#[test]
fn required_classification_types_must_be_present() {
    let logic = || RuleLogic::ClassificationTypeRequired { invoice_types: list(&["1.1"]), required_types: list(&["E3_561_001", "E3_561_002", "E3_561_003"]) };
    let mut invoice = sample(InvoiceType::SalesInvoice, Vec::new());
    invoice.income_classifications = vec![
        IncomeClassification { classification_type: None, classification_category: None, amount: Amount::zero() },
        IncomeClassification { classification_type: Some("E3_561_002".to_string()), classification_category: None, amount: Amount::zero() },
    ];
    let report = run(vec![rule("DR-TYPE", Severity::Error, "Type {type} missing", logic())], &invoice);
    assert_eq!(
        found(&report),
        vec![
            finding("DR-TYPE", "Type E3_561_001 missing", Some("incomeClassification"), Some("E3_561_001")),
            finding("DR-TYPE", "Type E3_561_003 missing", Some("incomeClassification"), Some("E3_561_003")),
        ]
    );
    invoice.header.invoice_type = InvoiceType::Unknown;
    assert!(run(vec![rule("DR-TYPE", Severity::Error, "x", logic())], &invoice).errors.is_empty());
}

#[test]
fn unknown_invoice_type_matches_its_own_word_only() {
    let invoice = sample(InvoiceType::Unknown, Vec::new());
    let report = run(
        vec![
            rule("DR-A", Severity::Error, "a", RuleLogic::CounterpartRequired { invoice_types: list(&["1.1"]) }),
            rule("DR-B", Severity::Error, "b", RuleLogic::CounterpartRequired { invoice_types: list(&["Unknown"]) }),
        ],
        &invoice,
    );
    assert_eq!(found(&report), vec![finding("DR-B", "b", Some("counterpart"), None)]);
}

#[test]
fn severity_decides_how_a_violation_is_recorded() {
    let invoice = sample(InvoiceType::SalesInvoice, Vec::new());
    let logic = || RuleLogic::CounterpartRequired { invoice_types: list(&["1.1"]) };

    let info = run(vec![rule("DR-I", Severity::Info, "info", logic())], &invoice);
    assert_eq!(info.status, ValidationStatus::Green);
    assert_eq!(info.risk_score, 0);
    assert!(info.errors.is_empty());

    let warning = run(vec![rule("DR-W", Severity::Warning, "warn", logic())], &invoice);
    assert_eq!(warning.status, ValidationStatus::Yellow);
    assert_eq!(warning.risk_score, 30);
    // A warning carries neither field nor value.
    assert_eq!(found(&warning), vec![finding("DR-W", "warn", None, None)]);
    assert_eq!(warning.errors[0].severity, Severity::Warning);

    let error = run(vec![rule("DR-E", Severity::Error, "err", logic())], &invoice);
    assert_eq!(error.status, ValidationStatus::Red);
    assert_eq!(error.risk_score, 100);
    assert_eq!(error.errors[0].severity, Severity::Error);
}

#[test]
fn rules_are_evaluated_in_order_and_independently() {
    let mut invoice = sample(InvoiceType::SalesInvoice, vec![row(1, -100, VatCategory::Vat24)]);
    invoice.header.currency = "USD".to_string();
    let report = run(
        vec![
            rule("DR-W", Severity::Warning, "warn", RuleLogic::CurrencyExchangeRate { default_currency: "EUR".to_string() }),
            rule("DR-I", Severity::Info, "info", RuleLogic::CounterpartRequired { invoice_types: list(&["1.1"]) }),
            rule("DR-E", Severity::Error, "Line {line}", RuleLogic::NoNegativeAmounts { invoice_types: list(&["1.1"]) }),
            rule("DR-W2", Severity::Warning, "late", RuleLogic::CounterpartRequired { invoice_types: list(&["1.1"]) }),
        ],
        &invoice,
    );
    let codes: Vec<&str> = report.errors.iter().map(|e| e.code.as_str()).collect();
    assert_eq!(codes, vec!["DR-W", "DR-E", "DR-W2"]);
    assert_eq!(report.status, ValidationStatus::Red);
    assert_eq!(report.risk_score, 100);
}

#[test]
fn single_rule_can_be_applied_alone() {
    let invoice = sample(InvoiceType::SalesInvoice, Vec::new());
    let r = rule("DR-E", Severity::Error, "err", RuleLogic::CounterpartRequired { invoice_types: list(&["1.1"]) });
    let mut report = ValidationReport::new();
    RulesEngine::apply_rule(&r, &invoice, &mut report);
    assert_eq!(found(&report), vec![finding("DR-E", "err", Some("counterpart"), None)]);
    RulesEngine::add_rule_error(&mut report, &r, "again", Some("f"), Some("v"));
    assert_eq!(report.errors.len(), 2);
    assert_eq!(report.errors[1].reason, "again");
    assert_eq!(report.errors[1].field.as_deref(), Some("f"));
    assert_eq!(report.errors[1].value_found.as_deref(), Some("v"));
}

#[test]
fn findings_accumulate_on_an_existing_report() {
    let invoice = sample(InvoiceType::SalesInvoice, Vec::new());
    let engine = RulesEngine::from_rule_set(RuleSet {
        version: "1".to_string(),
        rules: vec![rule("DR-W", Severity::Warning, "warn", RuleLogic::CounterpartRequired { invoice_types: list(&["1.1"]) })],
    });
    let mut report = ValidationReport::new();
    report.add_error("BR-001", "earlier", None, None);
    engine.apply(&invoice, &mut report);
    assert_eq!(report.status, ValidationStatus::Red);
    assert_eq!(report.errors.len(), 2);
    assert_eq!(report.errors[0].code, "BR-001");
    assert_eq!(report.errors[1].code, "DR-W");
}
