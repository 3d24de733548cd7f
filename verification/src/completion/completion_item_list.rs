//! A completion list built one entry at a time: `add` starts an entry, the
//! setters fill in the entry being built, `consume` hands out every entry in
//! the order in which it was added.
use vstd::prelude::*;
use crate::completion::completion_item::{item_with_description, item_with_detail, item_with_documentation,
    item_with_kind, new_item, CompletionItem, CompletionItemKind, CompletionItemView};
use crate::text::{is_prefix, starts_with};

verus! {

/// The prefix of the names of the methods that the compiler uses for itself.
pub const INTERNAL_METHOD_PREFIX: &'static str = "__";

pub struct CompletionItemList {
    list: Vec<CompletionItem>,
    current: Option<CompletionItem>,
}

/// A list as values: the finished entries, and the entry being built.
pub type CompletionListView = (Seq<CompletionItemView>, Option<CompletionItemView>);

pub open spec fn item_views(items: Seq<CompletionItem>) -> Seq<CompletionItemView> {
    items.map_values(|item: CompletionItem| item@)
}

impl View for CompletionItemList {
    type V = CompletionListView;

    closed spec fn view(&self) -> CompletionListView {
        (item_views(self.list@), match self.current {
            Some(item) => Some(item@),
            None => None,
        })
    }
}

/// Every entry of the list, the one being built last.
pub open spec fn all_items(list: CompletionListView) -> Seq<CompletionItemView> {
    match list.1 {
        Some(item) => list.0.push(item),
        None => list.0,
    }
}

/// The list after starting an entry labelled `label`.
pub open spec fn list_added(list: CompletionListView, label: Seq<char>) -> CompletionListView {
    (all_items(list), Some(new_item(label)))
}

/// The list after changing the entry being built, if any, by `f`.
pub open spec fn list_updated(list: CompletionListView, f: spec_fn(CompletionItemView) -> CompletionItemView) -> CompletionListView {
    (list.0, match list.1 {
        Some(item) => Some(f(item)),
        None => None,
    })
}

pub open spec fn list_with_kind(list: CompletionListView, kind: CompletionItemKind) -> CompletionListView {
    list_updated(list, |item: CompletionItemView| item_with_kind(item, kind))
}

pub open spec fn list_with_description(list: CompletionListView, description: Seq<char>) -> CompletionListView {
    list_updated(list, |item: CompletionItemView| item_with_description(item, description))
}

pub open spec fn list_with_detail(list: CompletionListView, detail: Seq<char>) -> CompletionListView {
    list_updated(list, |item: CompletionItemView| item_with_detail(item, detail))
}

pub open spec fn list_with_documentation(list: CompletionListView, documentation: Seq<char>) -> CompletionListView {
    list_updated(list, |item: CompletionItemView| item_with_documentation(item, documentation))
}

/// The list after adding an entry labelled `label` of the kind `kind`, described by `description`.
pub open spec fn list_with_entry(list: CompletionListView, label: Seq<char>, kind: CompletionItemKind, description: Seq<char>) -> CompletionListView {
    list_with_description(list_with_kind(list_added(list, label), kind), description)
}

impl CompletionItemList {
    pub fn new() -> (result: Self)
        ensures
            result@ == (Seq::<CompletionItemView>::empty(), None::<CompletionItemView>),
    {
        let result = CompletionItemList { list: Vec::new(), current: None };
        proof {
            assert(item_views(result.list@) =~= Seq::<CompletionItemView>::empty());
        }
        result
    }

    /// Moves the entry being built, if any, to the finished ones.
    fn store(&mut self)
        ensures
            final(self)@ == (all_items(old(self)@), None::<CompletionItemView>),
    {
        let current = self.current.take();
        if let Some(item) = current {
            self.list.push(item);
            proof {
                assert(item_views(self.list@) =~= item_views(old(self).list@).push(item@));
            }
        }
    }

    /// Starts an entry labelled `label`.
    pub fn add(&mut self, label: &str) -> (result: &mut Self)
        ensures
            (*result)@ == list_added(old(self)@, label@),
            *final(self) == *final(result),
    {
        self.store();
        self.current = Some(CompletionItem::new(label.to_owned()));
        self
    }

    /// Sets the kind of the entry being built.
    pub fn kind(&mut self, kind: CompletionItemKind) -> (result: &mut Self)
        ensures
            (*result)@ == list_with_kind(old(self)@, kind),
            *final(self) == *final(result),
    {
        if let Some(item) = &mut self.current {
            item.kind = Some(kind);
        }
        self
    }

    /// Sets the description of the entry being built.
    pub fn description(&mut self, description: String) -> (result: &mut Self)
        ensures
            (*result)@ == list_with_description(old(self)@, description@),
            *final(self) == *final(result),
    {
        if let Some(item) = &mut self.current {
            item.description = Some(description);
        }
        self
    }

    /// Sets the detail of the entry being built.
    pub fn detail(&mut self, detail: String) -> (result: &mut Self)
        ensures
            (*result)@ == list_with_detail(old(self)@, detail@),
            *final(self) == *final(result),
    {
        if let Some(item) = &mut self.current {
            item.detail = Some(detail);
        }
        self
    }

    /// Sets the documentation of the entry being built.
    pub fn documentation(&mut self, documentation: String) -> (result: &mut Self)
        ensures
            (*result)@ == list_with_documentation(old(self)@, documentation@),
            *final(self) == *final(result),
    {
        if let Some(item) = &mut self.current {
            item.documentation = Some(documentation);
        }
        self
    }

    /// Every entry, in the order in which they were added.
    pub fn consume(self) -> (result: Vec<CompletionItem>)
        ensures
            item_views(result@) == all_items(self@),
    {
        let mut list = self;
        list.store();
        list.list
    }

    /// Adds a variable `name` of the type `type_text`.
    pub fn add_variable(&mut self, name: &str, type_text: String)
        ensures
            final(self)@ == list_with_entry(old(self)@, name@, CompletionItemKind::Variable, type_text@),
    {
        self.add(name).kind(CompletionItemKind::Variable).description(type_text);
    }

    /// Adds a field `name` of the type `type_text`.
    pub fn add_field(&mut self, name: &str, type_text: String)
        ensures
            final(self)@ == list_with_entry(old(self)@, name@, CompletionItemKind::Field, type_text@),
    {
        self.add(name).kind(CompletionItemKind::Field).description(type_text);
    }

    /// Adds a variant `name` of the enum `owner_type_text`.
    pub fn add_enum_variant(&mut self, name: &str, owner_type_text: String)
        ensures
            final(self)@ == list_with_entry(old(self)@, name@, CompletionItemKind::EnumMember, owner_type_text@),
    {
        self.add(name).kind(CompletionItemKind::EnumMember).description(owner_type_text);
    }

    /// Adds a function `name`, written as a call, whose type is `self_type_text`.
    pub fn add_function(&mut self, name: &str, self_type_text: String)
        ensures
            final(self)@ == list_with_entry(old(self)@, name@ + "(…)"@, CompletionItemKind::Function, self_type_text@),
    {
        let label = call_label(name);
        self.add(label.as_str()).kind(CompletionItemKind::Function).description(self_type_text);
    }

    /// Adds a method `name`, written as a call, whose type is `self_type_text`;
    /// the methods that the compiler uses for itself are left out.
    pub fn add_method(&mut self, name: &str, self_type_text: String)
        ensures
            final(self)@ == if is_prefix(INTERNAL_METHOD_PREFIX@, name@) {
                old(self)@
            } else {
                list_with_entry(old(self)@, name@ + "(…)"@, CompletionItemKind::Method, self_type_text@)
            },
    {
        let is_internal_method = starts_with(name, INTERNAL_METHOD_PREFIX);
        let should_display_internal_methods = false;
        if is_internal_method == should_display_internal_methods {
            let label = call_label(name);
            self.add(label.as_str()).kind(CompletionItemKind::Method).description(self_type_text);
        }
    }

    /// Adds a type, under `custom_type_text` if one is given, else under its
    /// own name `type_text`.
    pub fn add_type(&mut self, type_text: &str, custom_type_text: Option<&str>)
        ensures
            final(self)@ == list_with_entry(old(self)@,
                match custom_type_text {
                    Some(name) => name@,
                    None => type_text@,
                },
                CompletionItemKind::Class, "(type) "@ + type_text@),
    {
        let label = match custom_type_text {
            Some(name) => name,
            None => type_text,
        };
        let mut description = String::from_str("(type) ");
        description.append(type_text);
        self.add(label).kind(CompletionItemKind::Class).description(description);
    }
}

/// `name` written as a call.
fn call_label(name: &str) -> (result: String)
    ensures
        result@ == name@ + "(…)"@,
{
    let mut label = name.to_owned();
    label.append("(…)");
    label
}

/// Starting an entry appends it, with its label alone, to the entries that
/// `consume` hands out.
pub proof fn law_add_appends(list: CompletionListView, label: Seq<char>)
    ensures
        all_items(list_added(list, label)) == all_items(list).push(new_item(label)),
{
}

/// A setter changes the last entry only, and only when an entry is being built;
/// the number of entries stays.
pub proof fn law_setter_changes_last_entry(list: CompletionListView, kind: CompletionItemKind)
    ensures
        all_items(list_with_kind(list, kind)).len() == all_items(list).len(),
        list.1 is Some ==> all_items(list_with_kind(list, kind)) == all_items(list).update(
            all_items(list).len() - 1,
            item_with_kind(all_items(list).last(), kind),
        ),
        list.1 is None ==> all_items(list_with_kind(list, kind)) == all_items(list),
{
    if list.1 is Some {
        assert(all_items(list_with_kind(list, kind)) =~= all_items(list).update(
            all_items(list).len() - 1,
            item_with_kind(all_items(list).last(), kind),
        ));
    }
}

/// A call that builds a completion list.
pub enum ListCall {
    Add(Seq<char>),
    Kind(CompletionItemKind),
    Description(Seq<char>),
    Detail(Seq<char>),
    Documentation(Seq<char>),
}

/// The list after `call`.
pub open spec fn list_after_call(list: CompletionListView, call: ListCall) -> CompletionListView {
    match call {
        ListCall::Add(label) => list_added(list, label),
        ListCall::Kind(kind) => list_with_kind(list, kind),
        ListCall::Description(text) => list_with_description(list, text),
        ListCall::Detail(text) => list_with_detail(list, text),
        ListCall::Documentation(text) => list_with_documentation(list, text),
    }
}

/// The list that `new` and then `calls`, in order, build.
pub open spec fn list_after_calls(calls: Seq<ListCall>) -> CompletionListView
    decreases calls.len(),
{
    if calls.len() == 0 {
        (Seq::empty(), None)
    } else {
        list_after_call(list_after_calls(calls.drop_last()), calls.last())
    }
}

/// The entry `item` after the setter `call` (an `Add` leaves it as it is).
pub open spec fn entry_after_setter(item: CompletionItemView, call: ListCall) -> CompletionItemView {
    match call {
        ListCall::Add(_) => item,
        ListCall::Kind(kind) => item_with_kind(item, kind),
        ListCall::Description(text) => item_with_description(item, text),
        ListCall::Detail(text) => item_with_detail(item, text),
        ListCall::Documentation(text) => item_with_documentation(item, text),
    }
}

/// The entries that `calls` describe: one per `Add`, in order, labelled as
/// that `Add` says, each field set by the last setter between its `Add` and
/// the next one; setters before the first `Add` set nothing.
pub open spec fn described_entries(calls: Seq<ListCall>) -> Seq<CompletionItemView>
    decreases calls.len(),
{
    if calls.len() == 0 {
        Seq::empty()
    } else {
        let before = described_entries(calls.drop_last());
        match calls.last() {
            ListCall::Add(label) => before.push(new_item(label)),
            _ => if before.len() == 0 {
                before
            } else {
                before.update(before.len() - 1, entry_after_setter(before.last(), calls.last()))
            },
        }
    }
}

/// The number of `Add` calls among `calls`.
pub open spec fn add_count(calls: Seq<ListCall>) -> nat
    decreases calls.len(),
{
    if calls.len() == 0 {
        0
    } else {
        add_count(calls.drop_last()) + if calls.last() is Add { 1nat } else { 0nat }
    }
}

/// What `consume` hands out after `new` and any run of calls: one entry per
/// `add`, in order, each with its label and the fields that the setters after
/// it (and before the next `add`) set, the last setter of a field winning.
pub proof fn law_consume_after_calls(calls: Seq<ListCall>)
    ensures
        all_items(list_after_calls(calls)) == described_entries(calls),
        described_entries(calls).len() == add_count(calls),
        list_after_calls(calls).1 is None <==> add_count(calls) == 0,
        list_after_calls(calls).1 is None ==> list_after_calls(calls).0.len() == 0,
    decreases calls.len(),
{
    if calls.len() > 0 {
        law_consume_after_calls(calls.drop_last());
        let list = list_after_calls(calls.drop_last());
        let before = described_entries(calls.drop_last());
        match calls.last() {
            ListCall::Add(label) => {},
            _ => {
                if list.1 is Some {
                    assert(all_items(list_after_calls(calls)) =~= before.update(before.len() - 1,
                        entry_after_setter(before.last(), calls.last())));
                } else {
                    assert(list.0 == before);
                }
            },
        }
    }
}

/// Adding an entry with its kind and description appends exactly that entry,
/// with no detail and no documentation, after every entry that was there;
/// nothing else changes.
pub proof fn law_entry_appends(list: CompletionListView, label: Seq<char>, kind: CompletionItemKind,
    description: Seq<char>)
    ensures
        all_items(list_with_entry(list, label, kind, description)) == all_items(list).push(
            (label, Some(kind), Some(description), None::<Seq<char>>, None::<Seq<char>>)),
{
}

} // verus!
