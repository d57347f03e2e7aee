//! Who produced a suggestion.

use vstd::prelude::*;

verus! {

/// Identity of one running language server.
#[derive(Clone, Copy, Debug, PartialEq, Eq, Structural, Hash)]
pub struct LanguageServerId(pub u64);

/// The source of a suggestion: one particular language server, or the
/// built-in path completer.
#[derive(Clone, Copy, Debug, PartialEq, Eq, Structural, Hash)]
pub enum CompletionProvider {
    Lsp(LanguageServerId),
    PathCompletions,
}

impl CompletionProvider {
    /// Whether the tag names a language server.
    pub fn is_lsp(&self) -> (r: bool)
        ensures
            r == (*self is Lsp),
    {
        match self {
            CompletionProvider::Lsp(_) => true,
            CompletionProvider::PathCompletions => false,
        }
    }
}

} // verus!
