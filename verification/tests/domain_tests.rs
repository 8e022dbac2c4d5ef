use aade_validator::date::CalendarDate;
use aade_validator::decimal::Amount;
use aade_validator::domain::enums::{InvoiceType, PaymentMethod, VatCategory};
use aade_validator::domain::totals::InvoiceTotals;
use aade_validator::domain::vat::VatBreakdown;

#[test]
fn invoice_type_codes_round_trip() {
    let all = [
        (InvoiceType::SalesInvoice, "1.1"),
        (InvoiceType::SalesInvoiceIntra, "1.2"),
        (InvoiceType::SalesInvoiceThirdCountry, "1.3"),
        (InvoiceType::SalesInvoiceRelated, "1.4"),
        (InvoiceType::SalesInvoiceRetail, "1.5"),
        (InvoiceType::SalesInvoiceForeignVAT, "1.6"),
        (InvoiceType::ServiceInvoice, "2.1"),
        (InvoiceType::ServiceInvoiceIntra, "2.2"),
        (InvoiceType::ServiceInvoiceThirdCountry, "2.3"),
        (InvoiceType::ServiceInvoiceRelated, "2.4"),
        (InvoiceType::CreditNote, "5.1"),
        (InvoiceType::DebitNote, "5.2"),
        (InvoiceType::RetailReceipt, "11.1"),
        (InvoiceType::ServiceReceipt, "11.2"),
        (InvoiceType::SimplifiedInvoice, "11.3"),
        (InvoiceType::RetailCreditNote, "11.4"),
        (InvoiceType::ServiceCreditNote, "11.5"),
    ];
    for (t, code) in all {
        assert_eq!(t.code(), code);
        assert_eq!(InvoiceType::from_code(code), t);
    }
}

#[test]
fn unknown_invoice_type_code_is_no_failure() {
    assert_eq!(InvoiceType::from_code("99.9"), InvoiceType::Unknown);
    assert_eq!(InvoiceType::from_code(""), InvoiceType::Unknown);
    assert_eq!(InvoiceType::from_code("1.10"), InvoiceType::Unknown);
    assert_eq!(InvoiceType::Unknown.code(), "Unknown");
    assert_eq!(InvoiceType::default(), InvoiceType::Unknown);
}

#[test]
fn vat_categories_have_their_rates() {
    let all = [
        (1, VatCategory::Vat24, "0.24"),
        (2, VatCategory::Vat13, "0.13"),
        (3, VatCategory::Vat6, "0.06"),
        (4, VatCategory::Vat17, "0.17"),
        (5, VatCategory::Vat9, "0.09"),
        (6, VatCategory::Vat4, "0.04"),
        (7, VatCategory::Vat0, "0.00"),
        (8, VatCategory::Excluded, "0.00"),
    ];
    for (code, category, rate) in all {
        assert_eq!(VatCategory::from_code(code), Some(category));
        assert_eq!(category.code(), code.to_string());
        assert_eq!(category.rate().to_text(), rate);
    }
    assert_eq!(VatCategory::default(), VatCategory::Vat24);
}

#[test]
fn zero_rated_and_excluded_stay_distinct() {
    assert_ne!(VatCategory::Vat0, VatCategory::Excluded);
    assert_ne!(VatCategory::Vat0.code(), VatCategory::Excluded.code());
    assert!(VatCategory::Vat0.rate().same_number(&VatCategory::Excluded.rate()));
}

#[test]
fn unknown_vat_category_codes_are_refused() {
    assert_eq!(VatCategory::from_code(0), None);
    assert_eq!(VatCategory::from_code(9), None);
    assert_eq!(VatCategory::from_code(-1), None);
}

#[test]
fn payment_methods_have_their_codes() {
    assert_eq!(PaymentMethod::Cash.code(), "1");
    assert_eq!(PaymentMethod::BankCheck.code(), "3");
    assert_eq!(PaymentMethod::Credit.code(), "5");
    assert_eq!(PaymentMethod::Pos.code(), "7");
}

#[test]
fn amounts_compare_by_value() {
    let a = Amount::new(1000, 1);
    let b = Amount::new(10000, 2);
    let c = Amount::new(10001, 2);
    assert!(a.same_number(&b));
    assert!(!a.same_number(&c));
    assert!(c.exceeds(&a));
    assert!(!a.exceeds(&b));
    assert!(Amount::new(-1, 0).is_negative());
    assert!(!Amount::zero().is_negative());
    assert!(Amount::zero().exceeds(&Amount::new(-1, 28)));
}

#[test]
fn amounts_print_with_their_scale() {
    assert_eq!(Amount::new(200, 0).to_text(), "200");
    assert_eq!(Amount::new(2400, 2).to_text(), "24.00");
    assert_eq!(Amount::new(-5, 2).to_text(), "-0.05");
    assert_eq!(Amount::zero().to_text(), "0");
}

#[test]
fn amounts_are_bounded_by_96_bits_and_28_digits() {
    let max: i128 = 79_228_162_514_264_337_593_543_950_335;
    assert!(Amount::from_parts(max, 0).is_some());
    assert!(Amount::from_parts(-max, 28).is_some());
    assert!(Amount::from_parts(max + 1, 0).is_none());
    assert!(Amount::from_parts(-max - 1, 0).is_none());
    assert!(Amount::from_parts(1, 29).is_none());
    let a = Amount::from_parts(12345, 3).unwrap();
    assert_eq!(a.mantissa(), 12345);
    assert_eq!(a.scale(), 3);
    assert_eq!(a.to_text(), "12.345");
}

#[test]
fn dates_are_ordered_by_year_month_day() {
    let d = |year, month, day| CalendarDate::from_ymd(year, month, day).unwrap();
    assert!(d(2024, 1, 1).is_after(&d(2023, 12, 31)));
    assert!(d(2023, 11, 1).is_after(&d(2023, 10, 31)));
    assert!(d(2023, 10, 28).is_after(&d(2023, 10, 27)));
    assert!(!d(2023, 10, 27).is_after(&d(2023, 10, 27)));
    assert!(!d(2023, 10, 27).is_after(&d(2023, 10, 28)));
    assert!(!d(2022, 12, 31).is_after(&d(2023, 1, 1)));
}

#[test]
fn dates_parse_and_print_in_iso_format() {
    let date = CalendarDate::parse("2023-10-27").unwrap();
    assert_eq!(date, CalendarDate::from_ymd(2023, 10, 27).unwrap());
    assert_eq!(date.to_text(), "2023-10-27");
    assert_eq!(CalendarDate::from_ymd(2024, 2, 9).unwrap().to_text(), "2024-02-09");
    assert!(CalendarDate::parse("27/10/2023").is_err());
    assert!(CalendarDate::parse("2023-02-30").is_err());
    assert!(CalendarDate::parse("").is_err());
}

#[test]
fn only_days_of_the_calendar_are_dates() {
    assert!(CalendarDate::from_ymd(2023, 2, 30).is_none());
    assert!(CalendarDate::from_ymd(2023, 2, 29).is_none());
    assert!(CalendarDate::from_ymd(2024, 2, 29).is_some());
    assert!(CalendarDate::from_ymd(2023, 13, 1).is_none());
    assert!(CalendarDate::from_ymd(2023, 0, 1).is_none());
    assert!(CalendarDate::from_ymd(2023, 4, 31).is_none());
    assert!(CalendarDate::from_ymd(2023, 1, 0).is_none());
    assert!(CalendarDate::from_ymd(400000, 1, 1).is_none());
    let date = CalendarDate::from_ymd(2023, 10, 27).unwrap();
    assert_eq!(date.year(), 2023);
    assert_eq!(date.month(), 10);
    assert_eq!(date.day(), 27);
}

#[test]
fn default_totals_are_zero() {
    let t = InvoiceTotals::default();
    assert!(t.total_net_amount.same_number(&Amount::zero()));
    assert!(t.total_gross_amount.same_number(&Amount::zero()));
    assert_eq!(t.total_vat_amount.to_text(), "0");
}

#[test]
fn vat_breakdown_keeps_its_parts() {
    let b = VatBreakdown::new(VatCategory::Vat13, Amount::new(10000, 2), Amount::new(1300, 2));
    assert_eq!(b.category, VatCategory::Vat13);
    assert_eq!(b.net_amount.to_text(), "100.00");
    assert_eq!(b.vat_amount.to_text(), "13.00");
}

#[test]
fn equality_of_amounts_is_equality_of_value() {
    assert!(Amount::new(100, 0) == Amount::new(10000, 2));
    assert!(Amount::new(100, 0) != Amount::new(10001, 2));
    assert!(Amount::zero() == Amount::new(0, 28));
    let mut a = InvoiceTotals::default();
    let mut b = InvoiceTotals::default();
    assert!(a == b);
    a.total_net_amount = Amount::new(5, 1);
    b.total_net_amount = Amount::new(50, 2);
    assert!(a == b);
    b.total_gross_amount = Amount::new(1, 2);
    assert!(a != b);
    let x = VatBreakdown::new(VatCategory::Vat24, Amount::new(1, 0), Amount::new(24, 2));
    let y = VatBreakdown::new(VatCategory::Vat24, Amount::new(100, 2), Amount::new(240, 3));
    let z = VatBreakdown::new(VatCategory::Vat13, Amount::new(100, 2), Amount::new(240, 3));
    assert!(x == y);
    assert!(x != z);
}
