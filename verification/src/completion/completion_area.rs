//! A stretch of a source file where the editor can offer completions, with
//! what it offers there.
use vstd::prelude::*;
use crate::completion::completion_item::{CompletionItem, CompletionItemKind, CompletionItemView};
use crate::completion::completion_item_list::{item_views, INTERNAL_METHOD_PREFIX};
use crate::reader::ItemLocation;
use crate::text::{is_prefix, starts_with};

verus! {

/// A named member of a type: a field with its type, or a method with the type
/// of the method itself.
pub struct MemberInfo {
    pub name: String,
    pub type_text: String,
}

/// The members of a type, in the order in which the type lists them.
pub struct TypeMembers {
    pub fields: Vec<MemberInfo>,
    pub methods: Vec<MemberInfo>,
}

/// What an area offers.
pub enum CompletionDetails {
    /// The members of the value before a dot.
    Field(TypeMembers),
}

pub struct CompletionArea {
    pub location: ItemLocation,
    pub details: CompletionDetails,
}

/// The entry offered for a field.
pub open spec fn field_entry(field: MemberInfo) -> CompletionItemView {
    (field.name@, Some(CompletionItemKind::Field), Some(field.type_text@), None, None)
}

/// The entry offered for a method.
pub open spec fn method_entry(method: MemberInfo) -> CompletionItemView {
    (method.name@, Some(CompletionItemKind::Method), Some(method.type_text@), None, None)
}

/// The entries for the first `n` fields.
pub open spec fn field_entries(fields: Seq<MemberInfo>, n: int) -> Seq<CompletionItemView>
    decreases n,
{
    if n <= 0 {
        Seq::empty()
    } else {
        field_entries(fields, n - 1).push(field_entry(fields[n - 1]))
    }
}

/// The entries for the first `n` methods, those that the compiler uses for
/// itself left out.
pub open spec fn method_entries(methods: Seq<MemberInfo>, n: int) -> Seq<CompletionItemView>
    decreases n,
{
    if n <= 0 {
        Seq::empty()
    } else if is_prefix(INTERNAL_METHOD_PREFIX@, methods[n - 1].name@) {
        method_entries(methods, n - 1)
    } else {
        method_entries(methods, n - 1).push(method_entry(methods[n - 1]))
    }
}

/// Whether an area of `location` covers the cursor at `cursor_index`; both ends count.
pub open spec fn covers(location: ItemLocation, cursor_index: int) -> bool {
    location.start <= cursor_index <= location.end
}

impl CompletionArea {
    pub fn contains_cursor(&self, cursor_index: usize) -> (result: bool)
        ensures
            result == covers(self.location, cursor_index as int),
    {
        self.location.start <= cursor_index && self.location.end >= cursor_index
    }

    /// The entries of the area: every field, then every method but those that
    /// the compiler uses for itself.
    pub fn provide_completion_items(&self) -> (result: Vec<CompletionItem>)
        ensures
            match self.details {
                CompletionDetails::Field(members) => item_views(result@) == field_entries(members.fields@, members.fields.len() as int)
                    + method_entries(members.methods@, members.methods.len() as int),
            },
    {
        let mut items: Vec<CompletionItem> = Vec::new();
        match &self.details {
            CompletionDetails::Field(members) => {
                let mut i: usize = 0;
                while i < members.fields.len()
                    invariant
                        i <= members.fields.len(),
                        item_views(items@) == field_entries(members.fields@, i as int),
                    decreases members.fields.len() - i,
                {
                    let field = &members.fields[i];
                    let item = CompletionItem::new(field.name.clone())
                        .kind(CompletionItemKind::Field)
                        .description(field.type_text.clone());
                    items.push(item);
                    proof {
                        assert(item_views(items@) =~= field_entries(members.fields@, i + 1));
                    }
                    i = i + 1;
                }
                let ghost fields_part = item_views(items@);
                let mut j: usize = 0;
                while j < members.methods.len()
                    invariant
                        j <= members.methods.len(),
                        fields_part == field_entries(members.fields@, members.fields.len() as int),
                        item_views(items@) == fields_part + method_entries(members.methods@, j as int),
                    decreases members.methods.len() - j,
                {
                    let method = &members.methods[j];
                    if !starts_with(method.name.as_str(), INTERNAL_METHOD_PREFIX) {
                        let item = CompletionItem::new(method.name.clone())
                            .kind(CompletionItemKind::Method)
                            .description(method.type_text.clone());
                        let ghost before = item_views(items@);
                        items.push(item);
                        proof {
                            assert(!is_prefix(INTERNAL_METHOD_PREFIX@, members.methods@[j as int].name@));
                            assert(method_entries(members.methods@, j + 1) == method_entries(members.methods@, j as int).push(
                                method_entry(members.methods@[j as int])));
                            assert(item_views(items@) =~= before.push(method_entry(members.methods@[j as int])));
                            assert(item_views(items@) =~= fields_part + method_entries(members.methods@, j + 1));
                        }
                    }
                    j = j + 1;
                }
            },
        }
        items
    }
}

proof fn lemma_member_entries(fields: Seq<MemberInfo>, methods: Seq<MemberInfo>, n: int, m: int)
    requires
        0 <= n <= fields.len(),
        0 <= m <= methods.len(),
    ensures
        field_entries(fields, n).len() == n,
        forall|i: int| 0 <= i < n ==> #[trigger] field_entries(fields, n)[i] == (fields[i].name@,
            Some(CompletionItemKind::Field), Some(fields[i].type_text@), None::<Seq<char>>, None::<Seq<char>>),
        method_entries(methods, m).len() <= m,
        forall|k: int| 0 <= k < method_entries(methods, m).len() ==> {
            let entry = #[trigger] method_entries(methods, m)[k];
            &&& entry.1 == Some(CompletionItemKind::Method)
            &&& !is_prefix(INTERNAL_METHOD_PREFIX@, entry.0)
            &&& exists|i: int| 0 <= i < m && entry == method_entry(#[trigger] methods[i])
        },
        forall|i: int| 0 <= i < m && !is_prefix(INTERNAL_METHOD_PREFIX@, #[trigger] methods[i].name@)
            ==> method_entries(methods, m).contains(method_entry(methods[i])),
    decreases n + m,
{
    if n > 0 {
        lemma_member_entries(fields, methods, n - 1, m);
    }
    if m > 0 {
        lemma_member_entries(fields, methods, n, m - 1);
        let prev = method_entries(methods, m - 1);
        let cur = method_entries(methods, m);
        assert forall|k: int| 0 <= k < cur.len() implies {
            let entry = #[trigger] cur[k];
            &&& entry.1 == Some(CompletionItemKind::Method)
            &&& !is_prefix(INTERNAL_METHOD_PREFIX@, entry.0)
            &&& exists|i: int| 0 <= i < m && entry == method_entry(#[trigger] methods[i])
        } by {
            if k < prev.len() {
                assert(cur[k] == prev[k]);
                let i = choose|i: int| 0 <= i < m - 1 && prev[k] == method_entry(#[trigger] methods[i]);
                assert(cur[k] == method_entry(methods[i]));
            } else {
                assert(cur[k] == method_entry(methods[m - 1]));
            }
        }
        assert forall|i: int| 0 <= i < m && !is_prefix(INTERNAL_METHOD_PREFIX@, #[trigger] methods[i].name@)
            implies cur.contains(method_entry(methods[i])) by {
            if i < m - 1 {
                let k = choose|k: int| 0 <= k < prev.len() && prev[k] == method_entry(methods[i]);
                assert(cur[k] == prev[k]);
            } else {
                assert(cur[prev.len() as int] == method_entry(methods[i]));
            }
        }
    }
}

/// An area before a dot offers each field once, in order, as a field entry
/// with its type, then the methods: each one as a method entry with its type,
/// except those that the compiler uses for itself, and no entry whose label
/// starts as theirs do.
pub proof fn law_member_entries(members: TypeMembers)
    ensures
        ({
            let fields = members.fields@;
            let methods = members.methods@;
            let field_part = field_entries(fields, fields.len() as int);
            let method_part = method_entries(methods, methods.len() as int);
            &&& field_part.len() == fields.len()
            &&& forall|i: int| 0 <= i < fields.len() ==> #[trigger] field_part[i] == (fields[i].name@,
                Some(CompletionItemKind::Field), Some(fields[i].type_text@), None::<Seq<char>>, None::<Seq<char>>)
            &&& method_part.len() <= methods.len()
            &&& forall|k: int| 0 <= k < method_part.len() ==> (#[trigger] method_part[k]).1
                == Some(CompletionItemKind::Method) && !is_prefix(INTERNAL_METHOD_PREFIX@, method_part[k].0)
            &&& forall|i: int| 0 <= i < methods.len() && !is_prefix(INTERNAL_METHOD_PREFIX@, #[trigger] methods[i].name@)
                ==> method_part.contains(method_entry(methods[i]))
        }),
{
    lemma_member_entries(members.fields@, members.methods@, members.fields@.len() as int,
        members.methods@.len() as int);
}

} // verus!
