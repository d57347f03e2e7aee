//! Symbols for breakpoints.

use crate::icons::{configured_or, symbol_or};
use crate::text::{opt_text, opt_text_clone, opt_text_eq};
use vstd::prelude::*;

verus! {

/// Shown for a breakpoint that the debugger has confirmed, where none is configured.
pub const DAP_DEFAULT_VERIFIED: &'static str = "●";

/// Shown for a breakpoint that the debugger has not confirmed, where none is configured.
pub const DAP_DEFAULT_UNVERIFIED: &'static str = "◯";

/// Optional symbols for the two states of a breakpoint.
#[derive(Debug)]
pub struct Dap {
    /// Drawn for every breakpoint where it is set.
    pub verified: Option<String>,
    /// Kept with the table; no breakpoint is drawn with it.
    pub unverified: Option<String>,
}

/// Mathematical value of a [`Dap`] table.
pub ghost struct DapView {
    pub verified: Option<Seq<char>>,
    pub unverified: Option<Seq<char>>,
}

impl DapView {
    /// The table in which nothing is configured.
    pub open spec fn unset() -> DapView {
        DapView {
            verified: None,
            unverified: None,
        }
    }
}

impl View for Dap {
    type V = DapView;

    open spec fn view(&self) -> DapView {
        DapView {
            verified: opt_text(self.verified),
            unverified: opt_text(self.unverified),
        }
    }
}

impl Dap {
    /// Symbol for a breakpoint that the debugger has confirmed.
    #[inline]
    pub fn verified(&self) -> (symbol: &str)
        ensures
            symbol@ == symbol_or(self@.verified, DAP_DEFAULT_VERIFIED@),
    {
        configured_or(&self.verified, DAP_DEFAULT_VERIFIED)
    }

    /// Symbol for a breakpoint that the debugger has not confirmed.  A symbol
    /// configured for confirmed breakpoints is drawn for these too; only the
    /// fallback differs.
    #[inline]
    pub fn unverified(&self) -> (symbol: &str)
        ensures
            symbol@ == symbol_or(self@.verified, DAP_DEFAULT_UNVERIFIED@),
    {
        configured_or(&self.verified, DAP_DEFAULT_UNVERIFIED)
    }
}

impl Default for Dap {
    /// The table in which nothing is configured.
    fn default() -> (r: Self)
        ensures
            r@ == DapView::unset(),
    {
        Dap {
            verified: None,
            unverified: None,
        }
    }
}

impl Clone for Dap {
    fn clone(&self) -> (r: Self)
        ensures
            r@ == self@,
    {
        Dap {
            verified: opt_text_clone(&self.verified),
            unverified: opt_text_clone(&self.unverified),
        }
    }
}

impl PartialEq for Dap {
    fn eq(&self, other: &Self) -> (r: bool) {
        opt_text_eq(&self.verified, &other.verified)
            && opt_text_eq(&self.unverified, &other.unverified)
    }
}

impl vstd::std_specs::cmp::PartialEqSpecImpl for Dap {
    open spec fn obeys_eq_spec() -> bool {
        true
    }

    open spec fn eq_spec(&self, other: &Self) -> bool {
        self@ == other@
    }
}

impl Eq for Dap {

}

} // verus!
