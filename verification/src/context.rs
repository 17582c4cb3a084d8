//! The side panels of the window.

use vstd::prelude::*;

verus! {

/// A side panel that the context drawer can show.
#[derive(Clone, Copy, Debug, PartialEq, Eq, Structural)]
pub enum ContextPage {
    About,
    Settings,
}

impl ContextPage {
    /// String-table key of the panel's title.
    pub open spec fn spec_title(self) -> Seq<char> {
        match self {
            ContextPage::About => "about"@,
            ContextPage::Settings => "settings"@,
        }
    }

    /// String-table key of the panel's title.
    pub fn title(&self) -> (key: String)
        ensures
            key@ == self.spec_title(),
    {
        match self {
            Self::About => "about".to_string(),
            Self::Settings => "settings".to_string(),
        }
    }
}

} // verus!
