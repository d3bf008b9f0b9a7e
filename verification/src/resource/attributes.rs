//! Common attributes

use vstd::prelude::*;

verus! {

/// Description attribute
#[derive(Default, Debug, Clone, PartialEq, Eq, Hash)]
pub struct DescriptionAttribute {
    /// Short length description text
    pub short: Option<String>,
    /// Standard length description text
    pub standard: String,
}

/// Title only attribute
#[derive(Default, Debug, Clone, PartialEq, Eq, Hash)]
pub struct TitleOnlyAttribute {
    /// A localized title to display for the view
    pub title: String,
}

} // verus!
