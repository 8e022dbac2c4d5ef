//! Closed code sets of the invoicing schema.

use crate::decimal::Amount;
use crate::text::{int_text, nat_text, text_eq};
use vstd::prelude::*;

verus! {

/// Classification of an invoice, by its schema code.
#[derive(Clone, Copy, Debug, PartialEq, Eq, Structural)]
pub enum InvoiceType {
    /// Code 1.1: sales invoice.
    SalesInvoice,
    /// Code 1.2: sales invoice, intra-community supply.
    SalesInvoiceIntra,
    /// Code 1.3: sales invoice, third-country supply.
    SalesInvoiceThirdCountry,
    /// Code 1.4: sales invoice, related party.
    SalesInvoiceRelated,
    /// Code 1.5: sales invoice, retail.
    SalesInvoiceRetail,
    /// Code 1.6: sales invoice, foreign VAT.
    SalesInvoiceForeignVAT,
    /// Code 2.1: service invoice.
    ServiceInvoice,
    /// Code 2.2: service invoice, intra-community.
    ServiceInvoiceIntra,
    /// Code 2.3: service invoice, third country.
    ServiceInvoiceThirdCountry,
    /// Code 2.4: service invoice, related party.
    ServiceInvoiceRelated,
    /// Code 5.1: credit note.
    CreditNote,
    /// Code 5.2: debit note.
    DebitNote,
    /// Code 11.1: retail sales receipt.
    RetailReceipt,
    /// Code 11.2: service receipt.
    ServiceReceipt,
    /// Code 11.3: simplified invoice.
    SimplifiedInvoice,
    /// Code 11.4: retail credit note.
    RetailCreditNote,
    /// Code 11.5: service credit note.
    ServiceCreditNote,
    /// Any code outside the known set.
    Unknown,
}

impl Default for InvoiceType {
    fn default() -> (t: InvoiceType)
        ensures
            t == InvoiceType::Unknown,
    {
        InvoiceType::Unknown
    }
}

impl InvoiceType {
    /// The schema code of the type; `Unknown` prints as the word itself.
    pub open spec fn code_text(self) -> Seq<char> {
        match self {
            InvoiceType::SalesInvoice => "1.1"@,
            InvoiceType::SalesInvoiceIntra => "1.2"@,
            InvoiceType::SalesInvoiceThirdCountry => "1.3"@,
            InvoiceType::SalesInvoiceRelated => "1.4"@,
            InvoiceType::SalesInvoiceRetail => "1.5"@,
            InvoiceType::SalesInvoiceForeignVAT => "1.6"@,
            InvoiceType::ServiceInvoice => "2.1"@,
            InvoiceType::ServiceInvoiceIntra => "2.2"@,
            InvoiceType::ServiceInvoiceThirdCountry => "2.3"@,
            InvoiceType::ServiceInvoiceRelated => "2.4"@,
            InvoiceType::CreditNote => "5.1"@,
            InvoiceType::DebitNote => "5.2"@,
            InvoiceType::RetailReceipt => "11.1"@,
            InvoiceType::ServiceReceipt => "11.2"@,
            InvoiceType::SimplifiedInvoice => "11.3"@,
            InvoiceType::RetailCreditNote => "11.4"@,
            InvoiceType::ServiceCreditNote => "11.5"@,
            InvoiceType::Unknown => "Unknown"@,
        }
    }

    /// The type that a code stands for. A code outside the known set stands
    /// for `Unknown`.
    pub open spec fn of_code(code: Seq<char>) -> InvoiceType {
        if code == "1.1"@ {
            InvoiceType::SalesInvoice
        } else if code == "1.2"@ {
            InvoiceType::SalesInvoiceIntra
        } else if code == "1.3"@ {
            InvoiceType::SalesInvoiceThirdCountry
        } else if code == "1.4"@ {
            InvoiceType::SalesInvoiceRelated
        } else if code == "1.5"@ {
            InvoiceType::SalesInvoiceRetail
        } else if code == "1.6"@ {
            InvoiceType::SalesInvoiceForeignVAT
        } else if code == "2.1"@ {
            InvoiceType::ServiceInvoice
        } else if code == "2.2"@ {
            InvoiceType::ServiceInvoiceIntra
        } else if code == "2.3"@ {
            InvoiceType::ServiceInvoiceThirdCountry
        } else if code == "2.4"@ {
            InvoiceType::ServiceInvoiceRelated
        } else if code == "5.1"@ {
            InvoiceType::CreditNote
        } else if code == "5.2"@ {
            InvoiceType::DebitNote
        } else if code == "11.1"@ {
            InvoiceType::RetailReceipt
        } else if code == "11.2"@ {
            InvoiceType::ServiceReceipt
        } else if code == "11.3"@ {
            InvoiceType::SimplifiedInvoice
        } else if code == "11.4"@ {
            InvoiceType::RetailCreditNote
        } else if code == "11.5"@ {
            InvoiceType::ServiceCreditNote
        } else {
            InvoiceType::Unknown
        }
    }

    /// The schema code of the type.
    pub fn code(&self) -> (code: &'static str)
        ensures
            code@ == self.code_text(),
    {
        match self {
            InvoiceType::SalesInvoice => "1.1",
            InvoiceType::SalesInvoiceIntra => "1.2",
            InvoiceType::SalesInvoiceThirdCountry => "1.3",
            InvoiceType::SalesInvoiceRelated => "1.4",
            InvoiceType::SalesInvoiceRetail => "1.5",
            InvoiceType::SalesInvoiceForeignVAT => "1.6",
            InvoiceType::ServiceInvoice => "2.1",
            InvoiceType::ServiceInvoiceIntra => "2.2",
            InvoiceType::ServiceInvoiceThirdCountry => "2.3",
            InvoiceType::ServiceInvoiceRelated => "2.4",
            InvoiceType::CreditNote => "5.1",
            InvoiceType::DebitNote => "5.2",
            InvoiceType::RetailReceipt => "11.1",
            InvoiceType::ServiceReceipt => "11.2",
            InvoiceType::SimplifiedInvoice => "11.3",
            InvoiceType::RetailCreditNote => "11.4",
            InvoiceType::ServiceCreditNote => "11.5",
            InvoiceType::Unknown => "Unknown",
        }
    }

    /// Reads a schema code. A code outside the known set gives `Unknown`.
    pub fn from_code(code: &str) -> (t: InvoiceType)
        ensures
            t == InvoiceType::of_code(code@),
    {
        if text_eq(code, "1.1") {
            InvoiceType::SalesInvoice
        } else if text_eq(code, "1.2") {
            InvoiceType::SalesInvoiceIntra
        } else if text_eq(code, "1.3") {
            InvoiceType::SalesInvoiceThirdCountry
        } else if text_eq(code, "1.4") {
            InvoiceType::SalesInvoiceRelated
        } else if text_eq(code, "1.5") {
            InvoiceType::SalesInvoiceRetail
        } else if text_eq(code, "1.6") {
            InvoiceType::SalesInvoiceForeignVAT
        } else if text_eq(code, "2.1") {
            InvoiceType::ServiceInvoice
        } else if text_eq(code, "2.2") {
            InvoiceType::ServiceInvoiceIntra
        } else if text_eq(code, "2.3") {
            InvoiceType::ServiceInvoiceThirdCountry
        } else if text_eq(code, "2.4") {
            InvoiceType::ServiceInvoiceRelated
        } else if text_eq(code, "5.1") {
            InvoiceType::CreditNote
        } else if text_eq(code, "5.2") {
            InvoiceType::DebitNote
        } else if text_eq(code, "11.1") {
            InvoiceType::RetailReceipt
        } else if text_eq(code, "11.2") {
            InvoiceType::ServiceReceipt
        } else if text_eq(code, "11.3") {
            InvoiceType::SimplifiedInvoice
        } else if text_eq(code, "11.4") {
            InvoiceType::RetailCreditNote
        } else if text_eq(code, "11.5") {
            InvoiceType::ServiceCreditNote
        } else {
            InvoiceType::Unknown
        }
    }
}

/// Statutory VAT category of an invoice line.
#[derive(Clone, Copy, Debug, PartialEq, Eq, Structural)]
pub enum VatCategory {
    /// Code 1: 24%.
    Vat24,
    /// Code 2: 13%.
    Vat13,
    /// Code 3: 6%.
    Vat6,
    /// Code 4: 17%.
    Vat17,
    /// Code 5: 9%.
    Vat9,
    /// Code 6: 4%.
    Vat4,
    /// Code 7: zero-rated.
    Vat0,
    /// Code 8: excluded from VAT.
    Excluded,
}

impl Default for VatCategory {
    fn default() -> (c: VatCategory)
        ensures
            c == VatCategory::Vat24,
    {
        VatCategory::Vat24
    }
}

impl VatCategory {
    /// The rate of the category in hundredths: 24 stands for 24%.
    pub open spec fn percent(self) -> int {
        match self {
            VatCategory::Vat24 => 24,
            VatCategory::Vat13 => 13,
            VatCategory::Vat6 => 6,
            VatCategory::Vat17 => 17,
            VatCategory::Vat9 => 9,
            VatCategory::Vat4 => 4,
            VatCategory::Vat0 => 0,
            VatCategory::Excluded => 0,
        }
    }

    /// The rate as an amount with two fractional digits: 0.24 for 24%.
    pub open spec fn spec_rate(self) -> Amount {
        Amount::spec_new(self.percent(), 2)
    }

    /// The schema code of the category, a digit from 1 to 8.
    pub open spec fn code_text(self) -> Seq<char> {
        match self {
            VatCategory::Vat24 => "1"@,
            VatCategory::Vat13 => "2"@,
            VatCategory::Vat6 => "3"@,
            VatCategory::Vat17 => "4"@,
            VatCategory::Vat9 => "5"@,
            VatCategory::Vat4 => "6"@,
            VatCategory::Vat0 => "7"@,
            VatCategory::Excluded => "8"@,
        }
    }

    /// The category that a numeric code stands for, if any.
    pub open spec fn of_code(code: int) -> Option<VatCategory> {
        if code == 1 {
            Some(VatCategory::Vat24)
        } else if code == 2 {
            Some(VatCategory::Vat13)
        } else if code == 3 {
            Some(VatCategory::Vat6)
        } else if code == 4 {
            Some(VatCategory::Vat17)
        } else if code == 5 {
            Some(VatCategory::Vat9)
        } else if code == 6 {
            Some(VatCategory::Vat4)
        } else if code == 7 {
            Some(VatCategory::Vat0)
        } else if code == 8 {
            Some(VatCategory::Excluded)
        } else {
            None
        }
    }

    /// The VAT rate of the category.
    pub fn rate(&self) -> (rate: Amount)
        ensures
            rate == self.spec_rate(),
    {
        match self {
            VatCategory::Vat24 => Amount::new(24, 2),
            VatCategory::Vat13 => Amount::new(13, 2),
            VatCategory::Vat6 => Amount::new(6, 2),
            VatCategory::Vat17 => Amount::new(17, 2),
            VatCategory::Vat9 => Amount::new(9, 2),
            VatCategory::Vat4 => Amount::new(4, 2),
            VatCategory::Vat0 => Amount::new(0, 2),
            VatCategory::Excluded => Amount::new(0, 2),
        }
    }

    /// The schema code of the category.
    pub fn code(&self) -> (code: &'static str)
        ensures
            code@ == self.code_text(),
    {
        match self {
            VatCategory::Vat24 => "1",
            VatCategory::Vat13 => "2",
            VatCategory::Vat6 => "3",
            VatCategory::Vat17 => "4",
            VatCategory::Vat9 => "5",
            VatCategory::Vat4 => "6",
            VatCategory::Vat0 => "7",
            VatCategory::Excluded => "8",
        }
    }

    /// Reads a numeric schema code; nothing for a code outside 1 to 8.
    pub fn from_code(code: i32) -> (c: Option<VatCategory>)
        ensures
            c == VatCategory::of_code(code as int),
    {
        if code == 1 {
            Some(VatCategory::Vat24)
        } else if code == 2 {
            Some(VatCategory::Vat13)
        } else if code == 3 {
            Some(VatCategory::Vat6)
        } else if code == 4 {
            Some(VatCategory::Vat17)
        } else if code == 5 {
            Some(VatCategory::Vat9)
        } else if code == 6 {
            Some(VatCategory::Vat4)
        } else if code == 7 {
            Some(VatCategory::Vat0)
        } else if code == 8 {
            Some(VatCategory::Excluded)
        } else {
            None
        }
    }
}

/// Means of payment, by its schema code.
#[derive(Clone, Copy, Debug, PartialEq, Eq, Structural)]
pub enum PaymentMethod {
    /// Code 1: domestic business payment account.
    Cash,
    /// Code 3: cheque.
    BankCheck,
    /// Code 5: on credit.
    Credit,
    /// Code 7: point-of-sale terminal.
    Pos,
}

impl PaymentMethod {
    /// The schema code of the payment method.
    pub open spec fn code_text(self) -> Seq<char> {
        match self {
            PaymentMethod::Cash => "1"@,
            PaymentMethod::BankCheck => "3"@,
            PaymentMethod::Credit => "5"@,
            PaymentMethod::Pos => "7"@,
        }
    }

    /// The schema code of the payment method.
    pub fn code(&self) -> (code: &'static str)
        ensures
            code@ == self.code_text(),
    {
        match self {
            PaymentMethod::Cash => "1",
            PaymentMethod::BankCheck => "3",
            PaymentMethod::Credit => "5",
            PaymentMethod::Pos => "7",
        }
    }
}

/// The texts of the invoice type codes, character by character.
proof fn lemma_invoice_type_code_texts()
    ensures
        "1.1"@ =~= seq!['1', '.', '1'],
        "1.2"@ =~= seq!['1', '.', '2'],
        "1.3"@ =~= seq!['1', '.', '3'],
        "1.4"@ =~= seq!['1', '.', '4'],
        "1.5"@ =~= seq!['1', '.', '5'],
        "1.6"@ =~= seq!['1', '.', '6'],
        "2.1"@ =~= seq!['2', '.', '1'],
        "2.2"@ =~= seq!['2', '.', '2'],
        "2.3"@ =~= seq!['2', '.', '3'],
        "2.4"@ =~= seq!['2', '.', '4'],
        "5.1"@ =~= seq!['5', '.', '1'],
        "5.2"@ =~= seq!['5', '.', '2'],
        "11.1"@ =~= seq!['1', '1', '.', '1'],
        "11.2"@ =~= seq!['1', '1', '.', '2'],
        "11.3"@ =~= seq!['1', '1', '.', '3'],
        "11.4"@ =~= seq!['1', '1', '.', '4'],
        "11.5"@ =~= seq!['1', '1', '.', '5'],
        "Unknown"@.len() == 7,
{
    reveal_strlit("1.1");
    reveal_strlit("1.2");
    reveal_strlit("1.3");
    reveal_strlit("1.4");
    reveal_strlit("1.5");
    reveal_strlit("1.6");
    reveal_strlit("2.1");
    reveal_strlit("2.2");
    reveal_strlit("2.3");
    reveal_strlit("2.4");
    reveal_strlit("5.1");
    reveal_strlit("5.2");
    reveal_strlit("11.1");
    reveal_strlit("11.2");
    reveal_strlit("11.3");
    reveal_strlit("11.4");
    reveal_strlit("11.5");
    reveal_strlit("Unknown");
}

/// Every invoice type is read back from its own code: the codes are
/// pairwise distinct.
pub proof fn lemma_invoice_type_code_round_trip(t: InvoiceType)
    ensures
        InvoiceType::of_code(t.code_text()) == t,
{
    lemma_invoice_type_code_texts();
}

/// A number stands for a VAT category exactly when the category's code is
/// that number written in decimal.
pub proof fn lemma_vat_category_code_is_its_number(c: VatCategory, n: int)
    ensures
        VatCategory::of_code(n) == Some(c) <==> c.code_text() == int_text(n),
{
    reveal_strlit("1");
    reveal_strlit("2");
    reveal_strlit("3");
    reveal_strlit("4");
    reveal_strlit("5");
    reveal_strlit("6");
    reveal_strlit("7");
    reveal_strlit("8");
    let code = c.code_text();
    let printed = int_text(n);
    if 0 <= n < 10 {
        if code == printed {
            assert(code[0] == printed[0]);
        }
        if VatCategory::of_code(n) == Some(c) {
            assert(code =~= printed);
        }
    } else if n >= 10 {
        lemma_long_number(n as nat);
    } else {
        assert(printed.len() >= 2) by {
            lemma_number_has_digits((-n) as nat);
        }
    }
}

/// A number prints with at least one digit.
proof fn lemma_number_has_digits(n: nat)
    ensures
        nat_text(n).len() >= 1,
    decreases n,
{
    if n >= 10 {
        lemma_number_has_digits(n / 10);
    }
}

/// A number of ten or more prints with at least two digits.
proof fn lemma_long_number(n: nat)
    requires
        n >= 10,
    ensures
        int_text(n as int).len() >= 2,
{
    lemma_number_has_digits(n / 10);
}

} // verus!
