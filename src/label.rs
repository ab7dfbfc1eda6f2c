//! Display labels for completion items.
use vstd::prelude::*;

verus! {

/// The protocol's number for a completion item that is a cross-reference.
pub const COMPLETION_KIND_REFERENCE: u32 = 18;

/// What the label formatter reads of a completion item.
#[derive(Debug, Clone)]
pub struct CompletionItem {
    pub label: String,
    pub kind: Option<u32>,
    pub detail: Option<String>,
}

/// A label shown in place of the default rendering.
#[derive(Debug, Clone)]
pub struct CodeLabel {
    pub text: String,
}

/// The label text for a completion item, where one replaces the default.
pub open spec fn label_text(item: CompletionItem) -> Option<Seq<char>> {
    match (item.kind, item.detail) {
        (Some(k), Some(d)) if k == COMPLETION_KIND_REFERENCE => Some(d@ + " - "@ + item.label@),
        _ => None,
    }
}

/// `"{detail} - {label}"` for a reference that has detail text; no label
/// otherwise.
pub fn format_completion_label(item: &CompletionItem) -> (r: Option<CodeLabel>)
    ensures
        r is Some <==> label_text(*item) is Some,
        r matches Some(l) ==> l.text@ == label_text(*item)->Some_0,
{
    match (&item.kind, &item.detail) {
        (Some(k), Some(d)) => {
            if *k == COMPLETION_KIND_REFERENCE {
                let mut text = d.clone();
                text.append(" - ");
                text.append(item.label.as_str());
                Some(CodeLabel { text })
            } else {
                None
            }
        },
        _ => None,
    }
}

} // verus!
