//! What a provider hands over for one suggestion.
//!
//! Aggregation reads a label, an optional filter text and an optional
//! preselect mark; everything else a provider attaches passes through
//! untouched.

use crate::text::{opt_text, opt_text_clone, opt_text_eq};
use vstd::prelude::*;

verus! {

/// A suggestion in the shape a language server sends it.
#[derive(Debug)]
pub struct ProtocolPayload {
    /// Text shown in the picker.
    pub label: String,
    /// Text to match the typed prefix against, where it differs from the label.
    pub filter_text: Option<String>,
    /// Whether the server asks for this item to be highlighted at first.
    pub preselect: Option<bool>,
}

/// Mathematical value of a [`ProtocolPayload`].
pub ghost struct ProtocolPayloadView {
    pub label: Seq<char>,
    pub filter_text: Option<Seq<char>>,
    pub preselect: Option<bool>,
}

impl ProtocolPayloadView {
    /// The filter text where the server gave one, else the label.
    pub open spec fn filter_text(self) -> Seq<char> {
        match self.filter_text {
            Some(text) => text,
            None => self.label,
        }
    }

    /// The preselect mark, absent meaning no.
    pub open spec fn preselect(self) -> bool {
        self.preselect == Some(true)
    }
}

impl View for ProtocolPayload {
    type V = ProtocolPayloadView;

    open spec fn view(&self) -> ProtocolPayloadView {
        ProtocolPayloadView {
            label: self.label@,
            filter_text: opt_text(self.filter_text),
            preselect: self.preselect,
        }
    }
}

impl DeepView for ProtocolPayload {
    type V = ProtocolPayloadView;

    open spec fn deep_view(&self) -> ProtocolPayloadView {
        self@
    }
}

impl Clone for ProtocolPayload {
    fn clone(&self) -> (r: Self)
        ensures
            r@ == self@,
    {
        ProtocolPayload {
            label: self.label.clone(),
            filter_text: opt_text_clone(&self.filter_text),
            preselect: self.preselect,
        }
    }
}

impl PartialEq for ProtocolPayload {
    fn eq(&self, other: &Self) -> (r: bool) {
        self.label == other.label && opt_text_eq(&self.filter_text, &other.filter_text)
            && self.preselect == other.preselect
    }
}

impl vstd::std_specs::cmp::PartialEqSpecImpl for ProtocolPayload {
    open spec fn obeys_eq_spec() -> bool {
        true
    }

    open spec fn eq_spec(&self, other: &Self) -> bool {
        self@ == other@
    }
}

/// A self-contained suggestion from a provider that is no language server.
#[derive(Debug)]
pub struct OtherItem {
    /// Text shown in the picker, and the text the typed prefix is matched against.
    pub label: String,
    /// Short description of what the item stands for.
    pub kind: String,
    /// Longer explanation, as Markdown.
    pub documentation: Option<String>,
}

/// Mathematical value of an [`OtherItem`].
pub ghost struct OtherItemView {
    pub label: Seq<char>,
    pub kind: Seq<char>,
    pub documentation: Option<Seq<char>>,
}

impl View for OtherItem {
    type V = OtherItemView;

    open spec fn view(&self) -> OtherItemView {
        OtherItemView {
            label: self.label@,
            kind: self.kind@,
            documentation: opt_text(self.documentation),
        }
    }
}

impl DeepView for OtherItem {
    type V = OtherItemView;

    open spec fn deep_view(&self) -> OtherItemView {
        self@
    }
}

impl Clone for OtherItem {
    fn clone(&self) -> (r: Self)
        ensures
            r@ == self@,
    {
        OtherItem {
            label: self.label.clone(),
            kind: self.kind.clone(),
            documentation: opt_text_clone(&self.documentation),
        }
    }
}

impl PartialEq for OtherItem {
    fn eq(&self, other: &Self) -> (r: bool) {
        self.label == other.label && self.kind == other.kind && opt_text_eq(
            &self.documentation,
            &other.documentation,
        )
    }
}

impl vstd::std_specs::cmp::PartialEqSpecImpl for OtherItem {
    open spec fn obeys_eq_spec() -> bool {
        true
    }

    open spec fn eq_spec(&self, other: &Self) -> bool {
        self@ == other@
    }
}

} // verus!
