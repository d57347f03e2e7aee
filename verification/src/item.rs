//! The unified item that the picker reads, whatever provider it came from.

use crate::payload::{OtherItem, OtherItemView, ProtocolPayload, ProtocolPayloadView};
use crate::provider::{CompletionProvider, LanguageServerId};
use vstd::prelude::*;
use vstd::std_specs::cmp::PartialEqSpec;

verus! {

/// Priority under which every item that no language server produced is
/// ranked.  Servers usually rank above it.
pub const OTHER_PRIORITY: i8 = 1;

/// A language server's suggestion together with where it came from.
#[derive(Debug)]
pub struct LspCompletionItem {
    /// The suggestion as the server sent it.
    pub item: ProtocolPayload,
    /// The server to ask for more detail, and whose items to drop when its
    /// request is cancelled.
    pub provider: LanguageServerId,
    /// Whether the server has already been asked for the item's full detail.
    pub resolved: bool,
    /// Rank of the server among the providers that answered.
    pub provider_priority: i8,
}

/// Mathematical value of an [`LspCompletionItem`].
pub ghost struct LspCompletionItemView {
    pub item: ProtocolPayloadView,
    pub provider: LanguageServerId,
    pub resolved: bool,
    pub provider_priority: i8,
}

impl LspCompletionItemView {
    /// The wrapping that merging gives a fresh payload: not yet resolved,
    /// with the server and rank of the response it arrived in.
    pub open spec fn fresh(
        item: ProtocolPayloadView,
        provider: LanguageServerId,
        priority: i8,
    ) -> LspCompletionItemView {
        LspCompletionItemView { item, provider, resolved: false, provider_priority: priority }
    }
}

impl View for LspCompletionItem {
    type V = LspCompletionItemView;

    open spec fn view(&self) -> LspCompletionItemView {
        LspCompletionItemView {
            item: self.item@,
            provider: self.provider,
            resolved: self.resolved,
            provider_priority: self.provider_priority,
        }
    }
}

impl LspCompletionItem {
    /// The text that the typed prefix is matched against: the server's
    /// filter text where it gave one, else the label.
    #[inline]
    pub fn filter_text(&self) -> (text: &str)
        ensures
            text@ == self@.item.filter_text(),
    {
        match &self.item.filter_text {
            Some(text) => text.as_str(),
            None => self.item.label.as_str(),
        }
    }
}

impl Clone for LspCompletionItem {
    fn clone(&self) -> (r: Self)
        ensures
            r@ == self@,
    {
        LspCompletionItem {
            item: self.item.clone(),
            provider: self.provider,
            resolved: self.resolved,
            provider_priority: self.provider_priority,
        }
    }
}

impl PartialEq for LspCompletionItem {
    fn eq(&self, other: &Self) -> (r: bool) {
        self.item == other.item && self.provider == other.provider && self.resolved
            == other.resolved && self.provider_priority == other.provider_priority
    }
}

impl vstd::std_specs::cmp::PartialEqSpecImpl for LspCompletionItem {
    open spec fn obeys_eq_spec() -> bool {
        true
    }

    open spec fn eq_spec(&self, other: &Self) -> bool {
        self@ == other@
    }
}

/// One suggestion in the aggregated list.
#[derive(Debug)]
pub enum CompletionItem {
    Lsp(LspCompletionItem),
    Other(OtherItem),
}

/// Mathematical value of a [`CompletionItem`].
pub ghost enum CompletionItemView {
    Lsp(LspCompletionItemView),
    Other(OtherItemView),
}

impl CompletionItemView {
    /// The text that the typed prefix is matched against.
    pub open spec fn filter_text(self) -> Seq<char> {
        match self {
            CompletionItemView::Lsp(item) => item.item.filter_text(),
            CompletionItemView::Other(item) => item.label,
        }
    }

    /// The rank of the item's provider.
    pub open spec fn provider_priority(self) -> i8 {
        match self {
            CompletionItemView::Lsp(item) => item.provider_priority,
            CompletionItemView::Other(_) => OTHER_PRIORITY,
        }
    }

    /// The provider that produced the item.
    pub open spec fn provider(self) -> CompletionProvider {
        match self {
            CompletionItemView::Lsp(item) => CompletionProvider::Lsp(item.provider),
            CompletionItemView::Other(_) => CompletionProvider::PathCompletions,
        }
    }

    /// Whether the picker should highlight the item at first.
    pub open spec fn preselect(self) -> bool {
        match self {
            CompletionItemView::Lsp(item) => item.item.preselect(),
            CompletionItemView::Other(_) => false,
        }
    }
}

impl View for CompletionItem {
    type V = CompletionItemView;

    open spec fn view(&self) -> CompletionItemView {
        match self {
            CompletionItem::Lsp(item) => CompletionItemView::Lsp(item@),
            CompletionItem::Other(item) => CompletionItemView::Other(item@),
        }
    }
}

impl CompletionItem {
    /// The text that the typed prefix is matched against.  A language
    /// server may name one apart from the label; any other item is matched
    /// by its label.
    #[inline]
    pub fn filter_text(&self) -> (text: &str)
        ensures
            text@ == self@.filter_text(),
    {
        match self {
            CompletionItem::Lsp(item) => item.filter_text(),
            CompletionItem::Other(item) => item.label.as_str(),
        }
    }

    /// The rank of the item's provider: what the server's response carried,
    /// or [`OTHER_PRIORITY`] for an item that no server produced.
    pub fn provider_priority(&self) -> (priority: i8)
        ensures
            priority == self@.provider_priority(),
    {
        match self {
            CompletionItem::Lsp(item) => item.provider_priority,
            CompletionItem::Other(_) => OTHER_PRIORITY,
        }
    }

    /// The provider that produced the item.
    pub fn provider(&self) -> (provider: CompletionProvider)
        ensures
            provider == self@.provider(),
    {
        match self {
            CompletionItem::Lsp(item) => CompletionProvider::Lsp(item.provider),
            CompletionItem::Other(_) => CompletionProvider::PathCompletions,
        }
    }

    /// Whether the picker should highlight the item at first.  Only a
    /// language server can ask for that, and only by saying so.
    pub fn preselect(&self) -> (preselect: bool)
        ensures
            preselect == self@.preselect(),
    {
        match self {
            CompletionItem::Lsp(LspCompletionItem { item, .. }) => item.preselect.unwrap_or(false),
            CompletionItem::Other(_) => false,
        }
    }
}

impl DeepView for CompletionItem {
    type V = CompletionItemView;

    open spec fn deep_view(&self) -> CompletionItemView {
        self@
    }
}

impl Clone for CompletionItem {
    fn clone(&self) -> (r: Self)
        ensures
            r@ == self@,
    {
        match self {
            CompletionItem::Lsp(item) => CompletionItem::Lsp(item.clone()),
            CompletionItem::Other(item) => CompletionItem::Other(item.clone()),
        }
    }
}

impl PartialEq for CompletionItem {
    fn eq(&self, other: &Self) -> (r: bool) {
        match (self, other) {
            (CompletionItem::Lsp(a), CompletionItem::Lsp(b)) => a == b,
            (CompletionItem::Other(a), CompletionItem::Other(b)) => a == b,
            _ => false,
        }
    }
}

impl vstd::std_specs::cmp::PartialEqSpecImpl for CompletionItem {
    open spec fn obeys_eq_spec() -> bool {
        true
    }

    open spec fn eq_spec(&self, other: &Self) -> bool {
        self@ == other@
    }
}

/// A language server's item equals a unified item that wraps an equal one,
/// and no other.
impl PartialEq<CompletionItem> for LspCompletionItem {
    fn eq(&self, other: &CompletionItem) -> (r: bool) {
        match other {
            CompletionItem::Lsp(other) => self == other,
            _ => false,
        }
    }
}

impl vstd::std_specs::cmp::PartialEqSpecImpl<CompletionItem> for LspCompletionItem {
    open spec fn obeys_eq_spec() -> bool {
        true
    }

    open spec fn eq_spec(&self, other: &CompletionItem) -> bool {
        CompletionItemView::Lsp(self@) == other@
    }
}

/// Any other item equals a unified item that wraps an equal one, and no
/// other.
impl PartialEq<CompletionItem> for OtherItem {
    fn eq(&self, other: &CompletionItem) -> (r: bool) {
        match other {
            CompletionItem::Other(other) => self == other,
            _ => false,
        }
    }
}

impl vstd::std_specs::cmp::PartialEqSpecImpl<CompletionItem> for OtherItem {
    open spec fn obeys_eq_spec() -> bool {
        true
    }

    open spec fn eq_spec(&self, other: &CompletionItem) -> bool {
        CompletionItemView::Other(self@) == other@
    }
}

impl PartialEq<LspCompletionItem> for CompletionItem {
    fn eq(&self, other: &LspCompletionItem) -> (r: bool) {
        other == self
    }
}

impl vstd::std_specs::cmp::PartialEqSpecImpl<LspCompletionItem> for CompletionItem {
    open spec fn obeys_eq_spec() -> bool {
        true
    }

    open spec fn eq_spec(&self, other: &LspCompletionItem) -> bool {
        self@ == CompletionItemView::Lsp(other@)
    }
}

impl PartialEq<OtherItem> for CompletionItem {
    fn eq(&self, other: &OtherItem) -> (r: bool) {
        other == self
    }
}

impl vstd::std_specs::cmp::PartialEqSpecImpl<OtherItem> for CompletionItem {
    open spec fn obeys_eq_spec() -> bool {
        true
    }

    open spec fn eq_spec(&self, other: &OtherItem) -> bool {
        self@ == CompletionItemView::Other(other@)
    }
}

/// An item that no server produced is ranked at [`OTHER_PRIORITY`], is
/// attributed to the path completer, is never preselected, and is matched
/// by its label.
pub proof fn lemma_other_item_facade(item: CompletionItemView)
    requires
        item is Other,
    ensures
        item.provider_priority() == OTHER_PRIORITY,
        item.provider() == CompletionProvider::PathCompletions,
        !item.preselect(),
        item.filter_text() == item->Other_0.label,
{
}

/// A language server's item is matched by its filter text where the server
/// gave one, whatever the label says, and by its label otherwise.
pub proof fn lemma_lsp_item_filter_text(item: CompletionItemView)
    requires
        item is Lsp,
    ensures
        item->Lsp_0.item.filter_text is Some ==> item.filter_text()
            == item->Lsp_0.item.filter_text->Some_0,
        item->Lsp_0.item.filter_text is None ==> item.filter_text() == item->Lsp_0.item.label,
{
}

/// An item equals the unified item that wraps it.
pub proof fn lemma_item_equals_its_wrapping(lsp: LspCompletionItem, other: OtherItem)
    ensures
        lsp.eq_spec(&CompletionItem::Lsp(lsp)),
        other.eq_spec(&CompletionItem::Other(other)),
{
}

/// Items of different kinds are never equal, however alike their labels.
pub proof fn lemma_kinds_never_equal(lsp: LspCompletionItem, other: OtherItem)
    ensures
        !lsp.eq_spec(&CompletionItem::Other(other)),
        !other.eq_spec(&CompletionItem::Lsp(lsp)),
        !CompletionItem::Lsp(lsp).eq_spec(&CompletionItem::Other(other)),
{
}

/// Comparing an item with a unified item gives the same answer from either
/// side.
pub proof fn lemma_equality_directions_agree(
    lsp: LspCompletionItem,
    other: OtherItem,
    unified: CompletionItem,
)
    ensures
        lsp.eq_spec(&unified) == unified.eq_spec(&lsp),
        other.eq_spec(&unified) == unified.eq_spec(&other),
{
}

} // verus!
