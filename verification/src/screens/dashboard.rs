//! Dashboard interaction state.
//!
//! The dashboard keeps only detail-view ownership here; health derivation and
//! rendering remain presentation work.

use vstd::prelude::*;

use crate::chars::owned;

verus! {

/// Complete dashboard value currently shown in the detail dialog.
#[derive(Debug, Clone)]
pub struct Detail {
    pub title: String,
    pub value: String,
}

/// State owned by the dashboard screen.
#[derive(Debug)]
pub struct DashboardScreen {
    /// A complete error, warning, or check issue requested with `d`.
    pub detail: Option<Detail>,
}

impl DashboardScreen {
    pub fn new() -> (s: Self)
        ensures
            s.detail is None,
    {
        DashboardScreen { detail: None }
    }

    pub fn open_detail(&mut self, title: &str, value: &str)
        ensures
            final(self).detail matches Some(d) && d.title@ == title@ && d.value@ == value@,
    {
        self.detail = Some(Detail { title: owned(title), value: owned(value) });
    }

    pub fn close_detail(&mut self)
        ensures
            final(self).detail is None,
    {
        self.detail = None;
    }
}

} // verus!
