//! Symbols that the editor draws beside the things it lists.
//!
//! Every table holds optional symbols, one per kind of thing.  Reading a
//! kind gives the configured symbol, or the table's fallback where none is
//! configured.

use crate::icons::dap::{Dap, DapView};
use crate::icons::diagnostic::{Diagnostic, DiagnosticView};
use crate::icons::lsp::{Lsp, LspView};
use crate::icons::mime::{Mime, MimeView};
use crate::icons::vcs::{Vcs, VcsView};
use vstd::prelude::*;

pub mod dap;
pub mod diagnostic;
pub mod lsp;
pub mod mime;
pub mod vcs;

verus! {

/// The symbol that a table shows: the configured one, else the fallback.
pub open spec fn symbol_or(configured: Option<Seq<char>>, fallback: Seq<char>) -> Seq<char> {
    match configured {
        Some(symbol) => symbol,
        None => fallback,
    }
}

/// Picks the configured symbol, or the fallback where none is configured.
pub fn configured_or<'a>(configured: &'a Option<String>, fallback: &'a str) -> (symbol: &'a str)
    ensures
        symbol@ == symbol_or(crate::text::opt_text(*configured), fallback@),
{
    match configured {
        Some(symbol) => symbol.as_str(),
        None => fallback,
    }
}

/// All the symbol tables of the editor.
#[derive(Debug)]
pub struct Icons {
    pub mime: Mime,
    pub lsp: Lsp,
    pub diagnostic: Diagnostic,
    pub vcs: Vcs,
    pub dap: Dap,
}

/// Mathematical value of [`Icons`].
pub ghost struct IconsView {
    pub mime: MimeView,
    pub lsp: LspView,
    pub diagnostic: DiagnosticView,
    pub vcs: VcsView,
    pub dap: DapView,
}

impl IconsView {
    /// The tables in which nothing is configured.
    pub open spec fn unset() -> IconsView {
        IconsView {
            mime: MimeView::unset(),
            lsp: LspView::unset(),
            diagnostic: DiagnosticView::unset(),
            vcs: VcsView::unset(),
            dap: DapView::unset(),
        }
    }
}

impl View for Icons {
    type V = IconsView;

    open spec fn view(&self) -> IconsView {
        IconsView {
            mime: self.mime@,
            lsp: self.lsp@,
            diagnostic: self.diagnostic@,
            vcs: self.vcs@,
            dap: self.dap@,
        }
    }
}

impl Default for Icons {
    /// The tables in which nothing is configured.
    fn default() -> (r: Self)
        ensures
            r@ == IconsView::unset(),
    {
        Icons {
            mime: Mime::default(),
            lsp: Lsp::default(),
            diagnostic: Diagnostic::default(),
            vcs: Vcs::default(),
            dap: Dap::default(),
        }
    }
}

impl Clone for Icons {
    fn clone(&self) -> (r: Self)
        ensures
            r@ == self@,
    {
        Icons {
            mime: self.mime.clone(),
            lsp: self.lsp.clone(),
            diagnostic: self.diagnostic.clone(),
            vcs: self.vcs.clone(),
            dap: self.dap.clone(),
        }
    }
}

impl PartialEq for Icons {
    fn eq(&self, other: &Self) -> (r: bool) {
        self.mime == other.mime && self.lsp == other.lsp && self.diagnostic == other.diagnostic
            && self.vcs == other.vcs && self.dap == other.dap
    }
}

impl vstd::std_specs::cmp::PartialEqSpecImpl for Icons {
    open spec fn obeys_eq_spec() -> bool {
        true
    }

    open spec fn eq_spec(&self, other: &Self) -> bool {
        self@ == other@
    }
}

impl Eq for Icons {

}

} // verus!
