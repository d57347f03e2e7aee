//! Symbols for the severities of a diagnostic.

use crate::icons::{configured_or, symbol_or};
use crate::text::{opt_text, opt_text_clone, opt_text_eq};
use vstd::prelude::*;

verus! {

/// Shown for a severity that has no symbol configured.
pub const DIAGNOSTIC_DEFAULT: &'static str = "●";

/// One optional symbol for each severity of a diagnostic.
#[derive(Debug)]
pub struct Diagnostic {
    pub hint: Option<String>,
    pub info: Option<String>,
    pub warning: Option<String>,
    pub error: Option<String>,
}

/// Mathematical value of a [`Diagnostic`] table.
pub ghost struct DiagnosticView {
    pub hint: Option<Seq<char>>,
    pub info: Option<Seq<char>>,
    pub warning: Option<Seq<char>>,
    pub error: Option<Seq<char>>,
}

impl DiagnosticView {
    /// The table in which nothing is configured.
    pub open spec fn unset() -> DiagnosticView {
        DiagnosticView {
            hint: None,
            info: None,
            warning: None,
            error: None,
        }
    }
}

impl View for Diagnostic {
    type V = DiagnosticView;

    open spec fn view(&self) -> DiagnosticView {
        DiagnosticView {
            hint: opt_text(self.hint),
            info: opt_text(self.info),
            warning: opt_text(self.warning),
            error: opt_text(self.error),
        }
    }
}

impl Diagnostic {
    /// Symbol for a hint.
    #[inline]
    pub fn hint(&self) -> (symbol: &str)
        ensures
            symbol@ == symbol_or(self@.hint, DIAGNOSTIC_DEFAULT@),
    {
        configured_or(&self.hint, DIAGNOSTIC_DEFAULT)
    }

    /// Symbol for an info.
    #[inline]
    pub fn info(&self) -> (symbol: &str)
        ensures
            symbol@ == symbol_or(self@.info, DIAGNOSTIC_DEFAULT@),
    {
        configured_or(&self.info, DIAGNOSTIC_DEFAULT)
    }

    /// Symbol for a warning.
    #[inline]
    pub fn warning(&self) -> (symbol: &str)
        ensures
            symbol@ == symbol_or(self@.warning, DIAGNOSTIC_DEFAULT@),
    {
        configured_or(&self.warning, DIAGNOSTIC_DEFAULT)
    }

    /// Symbol for an error.
    #[inline]
    pub fn error(&self) -> (symbol: &str)
        ensures
            symbol@ == symbol_or(self@.error, DIAGNOSTIC_DEFAULT@),
    {
        configured_or(&self.error, DIAGNOSTIC_DEFAULT)
    }
}

impl Default for Diagnostic {
    /// The table in which nothing is configured.
    fn default() -> (r: Self)
        ensures
            r@ == DiagnosticView::unset(),
    {
        Diagnostic {
            hint: None,
            info: None,
            warning: None,
            error: None,
        }
    }
}

impl Clone for Diagnostic {
    fn clone(&self) -> (r: Self)
        ensures
            r@ == self@,
    {
        Diagnostic {
            hint: opt_text_clone(&self.hint),
            info: opt_text_clone(&self.info),
            warning: opt_text_clone(&self.warning),
            error: opt_text_clone(&self.error),
        }
    }
}

impl PartialEq for Diagnostic {
    fn eq(&self, other: &Self) -> (r: bool) {
        opt_text_eq(&self.hint, &other.hint)
            && opt_text_eq(&self.info, &other.info)
            && opt_text_eq(&self.warning, &other.warning)
            && opt_text_eq(&self.error, &other.error)
    }
}

impl vstd::std_specs::cmp::PartialEqSpecImpl for Diagnostic {
    open spec fn obeys_eq_spec() -> bool {
        true
    }

    open spec fn eq_spec(&self, other: &Self) -> bool {
        self@ == other@
    }
}

impl Eq for Diagnostic {

}

} // verus!
