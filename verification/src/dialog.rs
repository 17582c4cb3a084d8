//! Pending dialog requests.

use vstd::prelude::*;

verus! {

/// A dialog waiting for the user. The only kind asks for a new city and
/// carries the text typed so far.
#[derive(Debug)]
pub enum DialogPage {
    Change(String),
}

/// Mathematical model of [`DialogPage`].
pub enum DialogPageView {
    Change(Seq<char>),
}

impl View for DialogPage {
    type V = DialogPageView;

    open spec fn view(&self) -> DialogPageView {
        match self {
            DialogPage::Change(city) => DialogPageView::Change(city@),
        }
    }
}

impl DeepView for DialogPage {
    type V = DialogPageView;

    open spec fn deep_view(&self) -> DialogPageView {
        self@
    }
}

impl Clone for DialogPage {
    fn clone(&self) -> (r: Self)
        ensures
            r@ == self@,
    {
        match self {
            DialogPage::Change(city) => DialogPage::Change(city.clone()),
        }
    }
}

impl PartialEq for DialogPage {
    fn eq(&self, other: &Self) -> (r: bool) {
        match (self, other) {
            (DialogPage::Change(a), DialogPage::Change(b)) => *a == *b,
        }
    }
}

impl vstd::std_specs::cmp::PartialEqSpecImpl for DialogPage {
    open spec fn obeys_eq_spec() -> bool {
        true
    }

    open spec fn eq_spec(&self, other: &Self) -> bool {
        self@ == other@
    }
}

impl Eq for DialogPage {}

} // verus!
