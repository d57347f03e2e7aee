//! One provider's answer, and how it joins the aggregated list.

use crate::item::{CompletionItem, CompletionItemView, LspCompletionItem, LspCompletionItemView};
use crate::payload::{ProtocolPayload, ProtocolPayloadView};
use crate::provider::CompletionProvider;
use vstd::prelude::*;

verus! {

/// The suggestions of one answer.  A language server sends bare payloads;
/// any other provider sends finished items.
pub enum CompletionItems {
    Lsp(Vec<ProtocolPayload>),
    Other(Vec<CompletionItem>),
}

/// Mathematical value of [`CompletionItems`].
pub ghost enum CompletionItemsView {
    Lsp(Seq<ProtocolPayloadView>),
    Other(Seq<CompletionItemView>),
}

impl CompletionItemsView {
    /// Number of suggestions in the batch.
    pub open spec fn len(self) -> nat {
        match self {
            CompletionItemsView::Lsp(items) => items.len(),
            CompletionItemsView::Other(items) => items.len(),
        }
    }
}

impl View for CompletionItems {
    type V = CompletionItemsView;

    open spec fn view(&self) -> CompletionItemsView {
        match self {
            CompletionItems::Lsp(items) => CompletionItemsView::Lsp(items.deep_view()),
            CompletionItems::Other(items) => CompletionItemsView::Other(items.deep_view()),
        }
    }
}

impl CompletionItems {
    /// Whether the batch holds no suggestion at all.
    pub fn is_empty(&self) -> (empty: bool)
        ensures
            empty == (self@.len() == 0),
    {
        match self {
            CompletionItems::Lsp(items) => items.is_empty(),
            CompletionItems::Other(items) => items.is_empty(),
        }
    }
}

/// What one provider returned for one completion request.
pub struct CompletionResponse {
    pub items: CompletionItems,
    /// The provider may know more items than it sent; ask it again as the
    /// user types on.
    pub incomplete: bool,
    pub provider: CompletionProvider,
    pub priority: i8,
}

/// Mathematical value of a [`CompletionResponse`].
pub ghost struct CompletionResponseView {
    pub items: CompletionItemsView,
    pub incomplete: bool,
    pub provider: CompletionProvider,
    pub priority: i8,
}

impl CompletionResponseView {
    /// The batch and the provider tag are of one kind: payloads come from a
    /// language server; finished items come from the path completer and are
    /// all of the kind that no server produces.
    pub open spec fn well_formed(self) -> bool {
        match self.items {
            CompletionItemsView::Lsp(_) => self.provider is Lsp,
            CompletionItemsView::Other(items) => {
                &&& self.provider is PathCompletions
                &&& forall|i: int| 0 <= i < items.len() ==> items[i] is Other
            },
        }
    }

    /// The response can join a list: every payload in it has a language
    /// server to be attributed to.
    pub open spec fn mergeable(self) -> bool {
        self.items is Lsp && self.items.len() > 0 ==> self.provider is Lsp
    }

    /// The item that a payload of this response becomes in the list.
    pub open spec fn wrap(self, payload: ProtocolPayloadView) -> CompletionItemView {
        CompletionItemView::Lsp(
            LspCompletionItemView::fresh(payload, self.provider->Lsp_0, self.priority),
        )
    }

    /// The items that this response contributes, in the order it holds them.
    pub open spec fn contribution(self) -> Seq<CompletionItemView> {
        match self.items {
            CompletionItemsView::Lsp(payloads) => payloads.map_values(
                |payload: ProtocolPayloadView| self.wrap(payload),
            ),
            CompletionItemsView::Other(items) => items,
        }
    }

    /// The list after this response has joined `dst`: what was there stays,
    /// in place, and the contribution follows it.
    pub open spec fn merged_into(self, dst: Seq<CompletionItemView>) -> Seq<CompletionItemView> {
        dst + self.contribution()
    }
}

impl View for CompletionResponse {
    type V = CompletionResponseView;

    open spec fn view(&self) -> CompletionResponseView {
        CompletionResponseView {
            items: self.items@,
            incomplete: self.incomplete,
            provider: self.provider,
            priority: self.priority,
        }
    }
}

impl CompletionResponse {
    /// Whether [`into_items`](Self::into_items) accepts this response.
    pub fn mergeable(&self) -> (r: bool)
        ensures
            r == self@.mergeable(),
    {
        match &self.items {
            CompletionItems::Lsp(items) => items.is_empty() || self.provider.is_lsp(),
            CompletionItems::Other(_) => true,
        }
    }

    /// Folds the response into `dst`.  Entries already in `dst` are neither
    /// removed nor reordered; the response's items follow them in the order
    /// the provider gave.  A payload becomes an unresolved item of the
    /// response's server and priority; finished items are taken as they are.
    pub fn into_items(self, dst: &mut Vec<CompletionItem>)
        requires
            self@.mergeable(),
        ensures
            final(dst).deep_view() == self@.merged_into(old(dst).deep_view()),
    {
        let ghost response = self@;
        let ghost before = dst.deep_view();
        match self.items {
            CompletionItems::Lsp(items) => {
                let ghost payloads = items.deep_view();
                for item in it: items
                    invariant
                        response.mergeable(),
                        response.items == CompletionItemsView::Lsp(payloads),
                        response.provider == self.provider,
                        response.priority == self.priority,
                        it.seq().len() == payloads.len(),
                        forall|i: int| 0 <= i < payloads.len() ==> it.seq()[i]@ == payloads[i],
                        dst.deep_view() == before + response.contribution().take(it.index() as int),
                {
                    let provider = match self.provider {
                        CompletionProvider::Lsp(provider) => provider,
                        CompletionProvider::PathCompletions => vstd::pervasive::unreached(),
                    };
                    let ghost done = dst.deep_view();
                    let ghost index = it.index() as int;
                    dst.push(
                        CompletionItem::Lsp(
                            LspCompletionItem {
                                item,
                                provider,
                                resolved: false,
                                provider_priority: self.priority,
                            },
                        ),
                    );
                    proof {
                        let contribution = response.contribution();
                        assert(item@ == payloads[index]);
                        assert(dst.deep_view() =~= done.push(contribution[index]));
                        assert(contribution.take(index + 1) =~= contribution.take(index).push(
                            contribution[index],
                        ));
                    }
                }
            },
            CompletionItems::Other(items) => {
                if dst.is_empty() {
                    *dst = items;
                } else {
                    let mut items = items;
                    dst.append(&mut items);
                }
            },
        }
    }
}

/// A response whose batch and tag are of one kind can always be merged.
pub proof fn lemma_well_formed_is_mergeable(response: CompletionResponseView)
    requires
        response.well_formed(),
    ensures
        response.mergeable(),
{
}

/// A response without suggestions leaves every list as it is, whatever its
/// kind and tag.
pub proof fn lemma_empty_response_changes_nothing(
    response: CompletionResponseView,
    dst: Seq<CompletionItemView>,
)
    requires
        response.items.len() == 0,
    ensures
        response.mergeable(),
        response.merged_into(dst) == dst,
{
    assert(response.contribution() =~= Seq::empty());
    assert(dst + Seq::<CompletionItemView>::empty() =~= dst);
}

/// Merging only appends.  The entries of `dst` stay where they were, the
/// response adds exactly as many entries as it has suggestions, and these
/// follow in the order of the batch.
pub proof fn lemma_merge_keeps_arrival_order(
    response: CompletionResponseView,
    dst: Seq<CompletionItemView>,
)
    ensures
        response.merged_into(dst).len() == dst.len() + response.items.len(),
        forall|i: int| 0 <= i < dst.len() ==> response.merged_into(dst)[i] == dst[i],
        forall|j: int|
            0 <= j < response.items.len() ==> response.merged_into(dst)[dst.len() + j]
                == response.contribution()[j],
{
}

/// Merging two responses one after the other lists the first one's items
/// before the second one's, whatever their priorities.
pub proof fn lemma_merge_twice(
    first: CompletionResponseView,
    second: CompletionResponseView,
    dst: Seq<CompletionItemView>,
)
    ensures
        second.merged_into(first.merged_into(dst)) == dst + first.contribution()
            + second.contribution(),
{
}

/// Finished items merged into an empty list are the list.
pub proof fn lemma_other_into_empty(response: CompletionResponseView)
    requires
        response.items is Other,
    ensures
        response.merged_into(Seq::empty()) == response.items->Other_0,
{
    assert(Seq::<CompletionItemView>::empty() + response.items->Other_0
        =~= response.items->Other_0);
}

/// Finished items merged into any list follow its entries unchanged.
pub proof fn lemma_other_appends(response: CompletionResponseView, dst: Seq<CompletionItemView>)
    requires
        response.items is Other,
    ensures
        response.merged_into(dst) == dst + response.items->Other_0,
{
}

/// Every payload of a language server's response becomes an unresolved
/// item of that server, ranked by the response's priority, around the
/// payload as it was sent.
pub proof fn lemma_lsp_items_carry_provenance(
    response: CompletionResponseView,
    dst: Seq<CompletionItemView>,
    j: int,
)
    requires
        response.items is Lsp,
        response.provider is Lsp,
        0 <= j < response.items.len(),
    ensures
        response.merged_into(dst)[dst.len() + j] is Lsp,
        response.merged_into(dst)[dst.len() + j]->Lsp_0.item == response.items->Lsp_0[j],
        response.merged_into(dst)[dst.len() + j]->Lsp_0.resolved == false,
        response.merged_into(dst)[dst.len() + j].provider() == response.provider,
        response.merged_into(dst)[dst.len() + j].provider_priority() == response.priority,
        response.merged_into(dst)[dst.len() + j].preselect()
            == response.items->Lsp_0[j].preselect(),
        response.merged_into(dst)[dst.len() + j].filter_text()
            == response.items->Lsp_0[j].filter_text(),
{
}

/// The priority, the tag and the completeness flag of a response play no
/// part in merging finished items: two responses with the same batch give
/// the same list.
pub proof fn lemma_other_batch_ignores_priority(
    a: CompletionResponseView,
    b: CompletionResponseView,
    dst: Seq<CompletionItemView>,
)
    requires
        a.items is Other,
        a.items == b.items,
    ensures
        a.merged_into(dst) == b.merged_into(dst),
{
}

/// Every item that a well-formed response adds reports the response's
/// provider; one that no server produced is ranked at
/// [`OTHER_PRIORITY`](crate::item::OTHER_PRIORITY), whatever priority the
/// response declared.
pub proof fn lemma_contribution_reports_provider(response: CompletionResponseView, j: int)
    requires
        response.well_formed(),
        0 <= j < response.items.len(),
    ensures
        response.contribution()[j].provider() == response.provider,
        response.items is Other ==> response.contribution()[j].provider_priority()
            == crate::item::OTHER_PRIORITY,
        response.items is Lsp ==> response.contribution()[j].provider_priority()
            == response.priority,
{
}

} // verus!
