use completion_items::item::{CompletionItem, LspCompletionItem};
use completion_items::payload::{OtherItem, ProtocolPayload};
use completion_items::provider::LanguageServerId;

fn lsp(label: &str) -> LspCompletionItem {
    LspCompletionItem {
        item: ProtocolPayload { label: label.to_string(), filter_text: None, preselect: None },
        provider: LanguageServerId(1),
        resolved: false,
        provider_priority: 0,
    }
}

fn other(label: &str) -> OtherItem {
    OtherItem { label: label.to_string(), kind: "file".to_string(), documentation: None }
}

#[test]
fn other_item_equals_its_wrapping() {
    assert!(other("a") == CompletionItem::Other(other("a")));
    assert!(CompletionItem::Other(other("a")) == other("a"));
}

#[test]
fn other_item_differs_from_a_server_item_with_the_same_label() {
    assert!(other("a") != CompletionItem::Lsp(lsp("a")));
    assert!(CompletionItem::Lsp(lsp("a")) != other("a"));
    assert!(CompletionItem::Lsp(lsp("a")) != CompletionItem::Other(other("a")));
}

#[test]
fn server_item_equals_its_wrapping() {
    assert!(lsp("a") == CompletionItem::Lsp(lsp("a")));
    assert!(CompletionItem::Lsp(lsp("a")) == lsp("a"));
    assert!(lsp("a") != CompletionItem::Other(other("a")));
    assert!(CompletionItem::Other(other("a")) != lsp("a"));
}

#[test]
fn every_field_of_a_server_item_counts() {
    let base = lsp("a");
    let mut label = lsp("a");
    label.item.label = "b".to_string();
    let mut filter = lsp("a");
    filter.item.filter_text = Some("a".to_string());
    let mut preselect = lsp("a");
    preselect.item.preselect = Some(false);
    let mut provider = lsp("a");
    provider.provider = LanguageServerId(2);
    let mut resolved = lsp("a");
    resolved.resolved = true;
    let mut priority = lsp("a");
    priority.provider_priority = 1;
    for changed in [label, filter, preselect, provider, resolved, priority] {
        assert!(base != changed);
        assert!(base != CompletionItem::Lsp(changed.clone()));
        assert!(CompletionItem::Lsp(changed) != base);
    }
    assert!(base == lsp("a"));
}

#[test]
fn every_field_of_an_other_item_counts() {
    let base = other("a");
    let mut label = other("a");
    label.label = "b".to_string();
    let mut kind = other("a");
    kind.kind = "folder".to_string();
    let mut documentation = other("a");
    documentation.documentation = Some(String::new());
    for changed in [label, kind, documentation] {
        assert!(base != changed);
        assert!(base != CompletionItem::Other(changed.clone()));
        assert!(CompletionItem::Other(changed) != base);
    }
    assert!(base == other("a"));
}

#[test]
fn copies_are_equal() {
    let a = CompletionItem::Lsp(lsp("a"));
    let b = CompletionItem::Other(other("b"));
    assert_eq!(a.clone(), a);
    assert_eq!(b.clone(), b);
    assert_ne!(a, b);
}
