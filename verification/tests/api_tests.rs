use aade_validator::api::validate::{process_invoice, BatchFileResult};
use aade_validator::decimal::Amount;
use aade_validator::validation::result::{ValidationReport, ValidationStatus};
use aade_validator::validation::rules_engine::RulesEngine;
use aade_validator::xml::parser::{
    XmlIncomeClassification, XmlInvoice, XmlInvoiceHeader, XmlInvoiceRow, XmlInvoiceSummary,
    XmlIssuer,
};

fn amount(cents: i64) -> Option<Amount> {
    Some(Amount::new(cents, 2))
}

fn document() -> XmlInvoice {
    XmlInvoice {
        issuer: Some(XmlIssuer {
            vat_number: "090000045".to_string(),
            country: "GR".to_string(),
            branch: 0,
        }),
        counterpart: None,
        invoice_header: XmlInvoiceHeader {
            series: "A".to_string(),
            aa: "1".to_string(),
            issue_date: "2023-10-27".to_string(),
            invoice_type: "11.1".to_string(),
            currency: None,
        },
        payment_methods: None,
        invoice_details: vec![XmlInvoiceRow {
            line_number: 1,
            net_value: amount(10000),
            vat_category: 1,
            vat_amount: amount(2400),
        }],
        invoice_summary: XmlInvoiceSummary {
            total_net_value: amount(10000),
            total_vat_amount: amount(2400),
            total_withheld_amount: amount(0),
            total_fees_amount: amount(0),
            total_stamp_duty_amount: amount(0),
            total_deductions_amount: amount(0),
            total_gross_value: amount(12400),
            income_classification: Some(vec![XmlIncomeClassification {
                classification_type: Some("E3_561_003".to_string()),
                classification_category: Some("category1_3".to_string()),
                amount: amount(10000),
            }]),
        },
    }
}

#[test]
fn raw_invoice_is_normalized_and_validated() {
    let rules: Result<RulesEngine, String> = Ok(RulesEngine::new());
    let (invoice, report) = process_invoice(document(), &rules).unwrap();
    assert_eq!(invoice.header.currency, "EUR");
    assert_eq!(invoice.lines.len(), 1);
    assert_eq!(report.status, ValidationStatus::Green, "{:?}", report.errors);
    assert!(report.errors.is_empty());
}

#[test]
fn findings_are_no_processing_failure() {
    let rules: Result<RulesEngine, String> = Ok(RulesEngine::new());
    let mut raw = document();
    raw.invoice_summary.total_net_value = amount(9999);
    let (_, report) = process_invoice(raw, &rules).unwrap();
    assert_eq!(report.status, ValidationStatus::Red);
    assert!(report.errors.iter().any(|e| e.code == "BR-001"));
}

#[test]
fn normalization_failure_is_marked_as_such() {
    let rules: Result<RulesEngine, String> = Ok(RulesEngine::new());
    let mut raw = document();
    raw.issuer = None;
    let e = process_invoice(raw, &rules).unwrap_err();
    assert_eq!(e, "Normalization Failed: Missing issuer");
}

#[test]
fn batch_result_of_a_validated_file() {
    let mut report = ValidationReport::new();
    report.add_warning("W", "w");
    let r = BatchFileResult::from_outcome("a.xml".to_string(), Ok(vec![report]));
    assert_eq!(r.filename, "a.xml");
    assert_eq!(r.status, "success");
    assert_eq!(r.reports.len(), 1);
    assert_eq!(r.reports[0].errors[0].code, "W");
    assert_eq!(r.error_message, None);
}

#[test]
fn batch_result_of_a_failed_file() {
    let r = BatchFileResult::from_outcome("b.xml".to_string(), Err("no root".to_string()));
    assert_eq!(r.filename, "b.xml");
    assert_eq!(r.status, "error");
    assert!(r.reports.is_empty());
    assert_eq!(r.error_message.as_deref(), Some("no root"));
}

#[test]
fn batch_result_of_an_unreadable_file() {
    let r = BatchFileResult::unreadable("c.xml".to_string(), "stream ended");
    assert_eq!(r.filename, "c.xml");
    assert_eq!(r.status, "error");
    assert!(r.reports.is_empty());
    assert_eq!(r.error_message.as_deref(), Some("Failed to read file content: stream ended"));
}
