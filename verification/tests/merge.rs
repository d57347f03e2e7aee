use completion_items::item::{CompletionItem, LspCompletionItem, OTHER_PRIORITY};
use completion_items::payload::{OtherItem, ProtocolPayload};
use completion_items::provider::{CompletionProvider, LanguageServerId};
use completion_items::response::{CompletionItems, CompletionResponse};

fn other(label: &str) -> CompletionItem {
    CompletionItem::Other(OtherItem {
        label: label.to_string(),
        kind: "file".to_string(),
        documentation: None,
    })
}

fn payload(label: &str, preselect: Option<bool>) -> ProtocolPayload {
    ProtocolPayload { label: label.to_string(), filter_text: None, preselect }
}

fn other_response(items: Vec<CompletionItem>, priority: i8) -> CompletionResponse {
    CompletionResponse {
        items: CompletionItems::Other(items),
        incomplete: false,
        provider: CompletionProvider::PathCompletions,
        priority,
    }
}

fn lsp_response(items: Vec<ProtocolPayload>, server: u64, priority: i8) -> CompletionResponse {
    CompletionResponse {
        items: CompletionItems::Lsp(items),
        incomplete: true,
        provider: CompletionProvider::Lsp(LanguageServerId(server)),
        priority,
    }
}

#[test]
fn other_batch_becomes_an_empty_list() {
    let mut dst: Vec<CompletionItem> = Vec::new();
    other_response(vec![other("a"), other("b")], 0).into_items(&mut dst);
    assert_eq!(dst, vec![other("a"), other("b")]);
}

#[test]
fn other_batch_follows_existing_entries() {
    let mut dst = vec![other("a")];
    other_response(vec![other("b")], 0).into_items(&mut dst);
    assert_eq!(dst, vec![other("a"), other("b")]);
}

#[test]
fn lsp_batch_is_wrapped_with_its_provenance() {
    let mut dst: Vec<CompletionItem> = Vec::new();
    let batch = vec![payload("x", Some(true)), payload("y", None)];
    lsp_response(batch, 9, 5).into_items(&mut dst);
    assert_eq!(dst.len(), 2);
    for item in &dst {
        assert_eq!(item.provider_priority(), 5);
        assert_eq!(item.provider(), CompletionProvider::Lsp(LanguageServerId(9)));
        match item {
            CompletionItem::Lsp(item) => assert!(!item.resolved),
            CompletionItem::Other(_) => panic!("a server's payload became another kind of item"),
        }
    }
    assert_eq!(dst[0].filter_text(), "x");
    assert_eq!(dst[1].filter_text(), "y");
    assert!(dst[0].preselect());
    assert!(!dst[1].preselect());
    assert_eq!(
        dst[0],
        CompletionItem::Lsp(LspCompletionItem {
            item: payload("x", Some(true)),
            provider: LanguageServerId(9),
            resolved: false,
            provider_priority: 5,
        })
    );
}

#[test]
fn lsp_batch_follows_existing_entries_in_batch_order() {
    let mut dst = vec![other("a")];
    lsp_response(vec![payload("x", None), payload("y", None), payload("z", None)], 1, -3)
        .into_items(&mut dst);
    assert_eq!(dst.len(), 4);
    assert_eq!(dst[0], other("a"));
    assert_eq!(dst[1].filter_text(), "x");
    assert_eq!(dst[2].filter_text(), "y");
    assert_eq!(dst[3].filter_text(), "z");
    assert_eq!(dst[3].provider_priority(), -3);
}

#[test]
fn other_items_ignore_the_declared_priority() {
    let mut low: Vec<CompletionItem> = Vec::new();
    let mut high: Vec<CompletionItem> = Vec::new();
    other_response(vec![other("a")], -7).into_items(&mut low);
    other_response(vec![other("a")], 100).into_items(&mut high);
    assert_eq!(low[0].provider_priority(), OTHER_PRIORITY);
    assert_eq!(high[0].provider_priority(), OTHER_PRIORITY);
    assert_eq!(OTHER_PRIORITY, 1);
    assert_eq!(low, high);
}

#[test]
fn empty_batches_change_nothing() {
    let mut dst = vec![other("a")];
    other_response(Vec::new(), 3).into_items(&mut dst);
    assert_eq!(dst, vec![other("a")]);
    lsp_response(Vec::new(), 4, 3).into_items(&mut dst);
    assert_eq!(dst, vec![other("a")]);
    let mut empty: Vec<CompletionItem> = Vec::new();
    other_response(Vec::new(), 3).into_items(&mut empty);
    assert!(empty.is_empty());
}

#[test]
fn empty_payload_batch_is_accepted_under_any_tag() {
    let response = CompletionResponse {
        items: CompletionItems::Lsp(Vec::new()),
        incomplete: false,
        provider: CompletionProvider::PathCompletions,
        priority: 2,
    };
    assert!(response.mergeable());
    let mut dst = vec![other("a")];
    response.into_items(&mut dst);
    assert_eq!(dst, vec![other("a")]);
}

#[test]
fn payloads_without_a_server_are_not_mergeable() {
    let response = CompletionResponse {
        items: CompletionItems::Lsp(vec![payload("x", None)]),
        incomplete: false,
        provider: CompletionProvider::PathCompletions,
        priority: 2,
    };
    assert!(!response.mergeable());
    assert!(lsp_response(vec![payload("x", None)], 1, 2).mergeable());
    assert!(other_response(vec![other("a")], 2).mergeable());
}

#[test]
fn merges_keep_arrival_order_not_priority_order() {
    let mut dst: Vec<CompletionItem> = Vec::new();
    lsp_response(vec![payload("low", None)], 1, 1).into_items(&mut dst);
    other_response(vec![other("path")], 0).into_items(&mut dst);
    lsp_response(vec![payload("high", None)], 2, 9).into_items(&mut dst);
    let labels: Vec<&str> = dst.iter().map(|item| item.filter_text()).collect();
    assert_eq!(labels, vec!["low", "path", "high"]);
    let priorities: Vec<i8> = dst.iter().map(|item| item.provider_priority()).collect();
    assert_eq!(priorities, vec![1, 1, 9]);
}

#[test]
fn duplicates_are_kept() {
    let mut dst = vec![other("a")];
    other_response(vec![other("a")], 0).into_items(&mut dst);
    assert_eq!(dst, vec![other("a"), other("a")]);
}

#[test]
fn batch_emptiness() {
    assert!(CompletionItems::Lsp(Vec::new()).is_empty());
    assert!(CompletionItems::Other(Vec::new()).is_empty());
    assert!(!CompletionItems::Lsp(vec![payload("x", None)]).is_empty());
    assert!(!CompletionItems::Other(vec![other("a")]).is_empty());
}
