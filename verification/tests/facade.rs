use completion_items::item::{CompletionItem, LspCompletionItem, OTHER_PRIORITY};
use completion_items::payload::{OtherItem, ProtocolPayload};
use completion_items::provider::{CompletionProvider, LanguageServerId};

fn lsp(label: &str, filter_text: Option<&str>, preselect: Option<bool>) -> LspCompletionItem {
    LspCompletionItem {
        item: ProtocolPayload {
            label: label.to_string(),
            filter_text: filter_text.map(|text| text.to_string()),
            preselect,
        },
        provider: LanguageServerId(3),
        resolved: false,
        provider_priority: -2,
    }
}

fn other(label: &str, kind: &str, documentation: Option<&str>) -> OtherItem {
    OtherItem {
        label: label.to_string(),
        kind: kind.to_string(),
        documentation: documentation.map(|text| text.to_string()),
    }
}

#[test]
fn filter_text_prefers_the_servers_override() {
    let item = lsp("fooBar", Some("foo_bar"), None);
    assert_eq!(item.filter_text(), "foo_bar");
    assert_eq!(CompletionItem::Lsp(item).filter_text(), "foo_bar");
}

#[test]
fn filter_text_falls_back_to_the_label() {
    let item = lsp("fooBar", None, None);
    assert_eq!(item.filter_text(), "fooBar");
    assert_eq!(CompletionItem::Lsp(item).filter_text(), "fooBar");
}

#[test]
fn filter_text_of_an_empty_override_is_empty() {
    let item = lsp("fooBar", Some(""), None);
    assert_eq!(item.filter_text(), "");
}

#[test]
fn filter_text_of_other_items_is_the_label() {
    let item = CompletionItem::Other(other("src/", "foo_bar", Some("foo_bar")));
    assert_eq!(item.filter_text(), "src/");
}

#[test]
fn priority_of_a_server_item_is_stored() {
    assert_eq!(CompletionItem::Lsp(lsp("a", None, None)).provider_priority(), -2);
    let mut item = lsp("a", None, None);
    item.provider_priority = i8::MAX;
    assert_eq!(CompletionItem::Lsp(item).provider_priority(), 127);
}

#[test]
fn priority_of_other_items_is_fixed() {
    assert_eq!(CompletionItem::Other(other("a", "file", None)).provider_priority(), 1);
    assert_eq!(OTHER_PRIORITY, 1);
}

#[test]
fn provider_names_the_server_or_the_path_completer() {
    assert_eq!(
        CompletionItem::Lsp(lsp("a", None, None)).provider(),
        CompletionProvider::Lsp(LanguageServerId(3))
    );
    assert_eq!(
        CompletionItem::Other(other("a", "file", None)).provider(),
        CompletionProvider::PathCompletions
    );
    assert!(CompletionProvider::Lsp(LanguageServerId(3)).is_lsp());
    assert!(!CompletionProvider::PathCompletions.is_lsp());
}

#[test]
fn preselect_needs_an_explicit_yes() {
    assert!(CompletionItem::Lsp(lsp("a", None, Some(true))).preselect());
    assert!(!CompletionItem::Lsp(lsp("a", None, Some(false))).preselect());
    assert!(!CompletionItem::Lsp(lsp("a", None, None)).preselect());
    assert!(!CompletionItem::Other(other("a", "file", None)).preselect());
}

#[test]
fn reading_twice_gives_the_same_answers() {
    let items = vec![
        CompletionItem::Lsp(lsp("fooBar", Some("foo_bar"), Some(true))),
        CompletionItem::Lsp(lsp("plain", None, None)),
        CompletionItem::Other(other("src/", "folder", None)),
    ];
    for item in &items {
        assert_eq!(item.filter_text(), item.filter_text());
        assert_eq!(item.provider_priority(), item.provider_priority());
        assert_eq!(item.provider(), item.provider());
        assert_eq!(item.preselect(), item.preselect());
    }
}
