//! Tax groups and the rate of each.
use vstd::prelude::*;

verus! {

/// The tax group that a line item is sold under.
#[derive(Debug, Clone, Copy, PartialEq, Eq, Structural)]
pub enum TaxGroup {
    Food,
    Alcohol,
    NonTaxable,
    Other,
}

impl TaxGroup {
    /// Every tax group, in the order in which a picker offers them.
    pub const ALL: [TaxGroup; 4] = [
        TaxGroup::Food,
        TaxGroup::Alcohol,
        TaxGroup::NonTaxable,
        TaxGroup::Other,
    ];

    /// The rate of the group, in whole percent of the taxed amount.
    pub open spec fn rate_percent(self) -> nat {
        match self {
            TaxGroup::Food => 8,
            TaxGroup::Alcohol => 10,
            TaxGroup::NonTaxable => 0,
            TaxGroup::Other => 8,
        }
    }

    /// The text that names the group to the user.
    pub open spec fn label_text(self) -> Seq<char> {
        match self {
            TaxGroup::Food => "Food (8%)"@,
            TaxGroup::Alcohol => "Alcohol (10%)"@,
            TaxGroup::NonTaxable => "Non-taxable"@,
            TaxGroup::Other => "Other (8%)"@,
        }
    }

    /// The rate of the group, in whole percent of the taxed amount.
    pub fn tax_rate(&self) -> (rate: u32)
        ensures
            rate == self.rate_percent(),
    {
        match self {
            TaxGroup::Food => 8,
            TaxGroup::Alcohol => 10,
            TaxGroup::NonTaxable => 0,
            TaxGroup::Other => 8,
        }
    }

    /// The text that names the group to the user.
    pub fn label(&self) -> (text: String)
        ensures
            text@ == self.label_text(),
    {
        match self {
            TaxGroup::Food => "Food (8%)".to_owned(),
            TaxGroup::Alcohol => "Alcohol (10%)".to_owned(),
            TaxGroup::NonTaxable => "Non-taxable".to_owned(),
            TaxGroup::Other => "Other (8%)".to_owned(),
        }
    }
}

} // verus!
