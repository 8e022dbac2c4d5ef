//! Income classification entries.

use crate::decimal::Amount;
use crate::text::opt_text;
use vstd::prelude::*;

verus! {

/// One income classification of the invoice summary.
#[derive(Clone, Debug)]
pub struct IncomeClassification {
    pub classification_type: Option<String>,
    pub classification_category: Option<String>,
    pub amount: Amount,
}

/// Mathematical view of an [`IncomeClassification`].
pub struct IncomeClassificationView {
    pub classification_type: Option<Seq<char>>,
    pub classification_category: Option<Seq<char>>,
    pub amount: Amount,
}

impl View for IncomeClassification {
    type V = IncomeClassificationView;

    open spec fn view(&self) -> IncomeClassificationView {
        IncomeClassificationView {
            classification_type: opt_text(self.classification_type),
            classification_category: opt_text(self.classification_category),
            amount: self.amount,
        }
    }
}

/// The views of a list of classifications.
pub open spec fn classification_views(list: Seq<IncomeClassification>) -> Seq<
    IncomeClassificationView,
> {
    Seq::new(list.len(), |i: int| list[i]@)
}

} // verus!
