//! The entries that an editor offers to complete what is being typed.
use vstd::prelude::*;

verus! {

/// The icon that an editor shows beside an entry.
#[derive(Clone, Copy, Debug, PartialEq, Eq, Structural)]
pub enum CompletionItemKind {
    Variable,
    Field,
    Method,
    Function,
    EnumMember,
    Class,
}

/// One entry of a completion list.
pub struct CompletionItem {
    /// What will be inserted in the editor.
    pub label: String,
    /// The icon that tells the kind of the entry.
    pub kind: Option<CompletionItemKind>,
    /// Shown in small letters, right of the label.
    pub description: Option<String>,
    /// The title of the side panel.
    pub detail: Option<String>,
    /// The content of the side panel.
    pub documentation: Option<String>,
}

/// An entry as values: label, kind, description, detail, documentation.
pub type CompletionItemView = (Seq<char>, Option<CompletionItemKind>, Option<Seq<char>>, Option<Seq<char>>, Option<Seq<char>>);

impl View for CompletionItem {
    type V = CompletionItemView;

    open spec fn view(&self) -> CompletionItemView {
        (self.label@, self.kind, self.description.deep_view(), self.detail.deep_view(), self.documentation.deep_view())
    }
}

/// An entry with a label and nothing else.
pub open spec fn new_item(label: Seq<char>) -> CompletionItemView {
    (label, None, None, None, None)
}

pub open spec fn item_with_kind(item: CompletionItemView, kind: CompletionItemKind) -> CompletionItemView {
    (item.0, Some(kind), item.2, item.3, item.4)
}

pub open spec fn item_with_description(item: CompletionItemView, description: Seq<char>) -> CompletionItemView {
    (item.0, item.1, Some(description), item.3, item.4)
}

pub open spec fn item_with_detail(item: CompletionItemView, detail: Seq<char>) -> CompletionItemView {
    (item.0, item.1, item.2, Some(detail), item.4)
}

pub open spec fn item_with_documentation(item: CompletionItemView, documentation: Seq<char>) -> CompletionItemView {
    (item.0, item.1, item.2, item.3, Some(documentation))
}

impl CompletionItem {
    pub fn new(label: String) -> (result: Self)
        ensures
            result@ == new_item(label@),
    {
        CompletionItem { label, kind: None, description: None, detail: None, documentation: None }
    }

    pub fn kind(self, kind: CompletionItemKind) -> (result: Self)
        ensures
            result@ == item_with_kind(self@, kind),
    {
        let mut item = self;
        item.kind = Some(kind);
        item
    }

    pub fn description(self, description: String) -> (result: Self)
        ensures
            result@ == item_with_description(self@, description@),
    {
        let mut item = self;
        item.description = Some(description);
        item
    }

    pub fn detail(self, detail: String) -> (result: Self)
        ensures
            result@ == item_with_detail(self@, detail@),
    {
        let mut item = self;
        item.detail = Some(detail);
        item
    }

    pub fn documentation(self, documentation: String) -> (result: Self)
        ensures
            result@ == item_with_documentation(self@, documentation@),
    {
        let mut item = self;
        item.documentation = Some(documentation);
        item
    }
}

} // verus!
