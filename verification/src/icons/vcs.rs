//! Symbol for version control.

use crate::icons::{configured_or, symbol_or};
use crate::text::{opt_text, opt_text_clone, opt_text_eq};
use vstd::prelude::*;

verus! {

/// Shown where no version control symbol is configured: nothing.
pub const VCS_DEFAULT: &'static str = "";

/// The optional symbol shown beside the checked-out branch.
#[derive(Debug)]
pub struct Vcs {
    pub icon: Option<String>,
}

/// Mathematical value of a [`Vcs`] table.
pub ghost struct VcsView {
    pub icon: Option<Seq<char>>,
}

impl VcsView {
    /// The table in which nothing is configured.
    pub open spec fn unset() -> VcsView {
        VcsView {
            icon: None,
        }
    }
}

impl View for Vcs {
    type V = VcsView;

    open spec fn view(&self) -> VcsView {
        VcsView {
            icon: opt_text(self.icon),
        }
    }
}

impl Vcs {
    /// Symbol shown beside the checked-out branch.
    #[inline]
    pub fn icon(&self) -> (symbol: &str)
        ensures
            symbol@ == symbol_or(self@.icon, VCS_DEFAULT@),
    {
        configured_or(&self.icon, VCS_DEFAULT)
    }
}

impl Default for Vcs {
    /// The table in which nothing is configured.
    fn default() -> (r: Self)
        ensures
            r@ == VcsView::unset(),
    {
        Vcs {
            icon: None,
        }
    }
}

impl Clone for Vcs {
    fn clone(&self) -> (r: Self)
        ensures
            r@ == self@,
    {
        Vcs {
            icon: opt_text_clone(&self.icon),
        }
    }
}

impl PartialEq for Vcs {
    fn eq(&self, other: &Self) -> (r: bool) {
        opt_text_eq(&self.icon, &other.icon)
    }
}

impl vstd::std_specs::cmp::PartialEqSpecImpl for Vcs {
    open spec fn obeys_eq_spec() -> bool {
        true
    }

    open spec fn eq_spec(&self, other: &Self) -> bool {
        self@ == other@
    }
}

impl Eq for Vcs {

}

} // verus!
