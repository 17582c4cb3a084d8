//! A place as the location resolver reports it.

use vstd::prelude::*;

verus! {

/// A candidate place: its display name and its coordinates, kept as text.
#[derive(Debug)]
pub struct Location {
    pub display_name: String,
    pub lat: String,
    pub lon: String,
}

/// Mathematical model of [`Location`].
pub struct LocationView {
    pub display_name: Seq<char>,
    pub lat: Seq<char>,
    pub lon: Seq<char>,
}

impl View for Location {
    type V = LocationView;

    open spec fn view(&self) -> LocationView {
        LocationView { display_name: self.display_name@, lat: self.lat@, lon: self.lon@ }
    }
}

impl DeepView for Location {
    type V = LocationView;

    open spec fn deep_view(&self) -> LocationView {
        self@
    }
}

impl Clone for Location {
    fn clone(&self) -> (r: Self)
        ensures
            r@ == self@,
    {
        Location {
            display_name: self.display_name.clone(),
            lat: self.lat.clone(),
            lon: self.lon.clone(),
        }
    }
}

impl PartialEq for Location {
    fn eq(&self, other: &Self) -> (r: bool) {
        self.display_name == other.display_name && self.lat == other.lat && self.lon
            == other.lon
    }
}

impl vstd::std_specs::cmp::PartialEqSpecImpl for Location {
    open spec fn obeys_eq_spec() -> bool {
        true
    }

    open spec fn eq_spec(&self, other: &Self) -> bool {
        self@ == other@
    }
}

impl Eq for Location {}

} // verus!
