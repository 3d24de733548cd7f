use lotus_compiler::completion::completion_area::{CompletionArea, CompletionDetails, MemberInfo, TypeMembers};
use lotus_compiler::completion::completion_area_index::CompletionAreaIndex;
use lotus_compiler::completion::completion_item::{CompletionItem, CompletionItemKind};
use lotus_compiler::completion::completion_item_list::CompletionItemList;
use lotus_compiler::reader::ItemLocation;

fn labels(items: &[CompletionItem]) -> Vec<String> {
    items.iter().map(|item| item.label.clone()).collect()
}

#[test]
fn items_are_built_field_by_field() {
    let item = CompletionItem::new("width".to_string())
        .kind(CompletionItemKind::Field)
        .description("int".to_string())
        .detail("d".to_string())
        .documentation("doc".to_string());
    assert_eq!(item.label, "width");
    assert_eq!(item.kind, Some(CompletionItemKind::Field));
    assert_eq!(item.description.as_deref(), Some("int"));
    assert_eq!(item.detail.as_deref(), Some("d"));
    assert_eq!(item.documentation.as_deref(), Some("doc"));
    let bare = CompletionItem::new("x".to_string());
    assert!(bare.kind.is_none() && bare.description.is_none() && bare.detail.is_none() && bare.documentation.is_none());
}

#[test]
fn a_list_hands_out_its_entries_in_order() {
    let mut list = CompletionItemList::new();
    list.kind(CompletionItemKind::Class);
    list.add("a").kind(CompletionItemKind::Variable).detail("first".to_string());
    list.add("b").documentation("second".to_string());
    list.add("c").description("third".to_string()).kind(CompletionItemKind::Method);
    let items = list.consume();
    assert_eq!(labels(&items), vec!["a", "b", "c"]);
    assert_eq!(items[0].kind, Some(CompletionItemKind::Variable));
    assert_eq!(items[0].detail.as_deref(), Some("first"));
    assert!(items[1].kind.is_none());
    assert_eq!(items[1].documentation.as_deref(), Some("second"));
    assert_eq!(items[2].kind, Some(CompletionItemKind::Method));
    assert_eq!(items[2].description.as_deref(), Some("third"));
}

#[test]
fn an_empty_list_gives_nothing() {
    let mut list = CompletionItemList::new();
    list.description("lost".to_string());
    assert!(list.consume().is_empty());
}

#[test]
fn typed_entries() {
    let mut list = CompletionItemList::new();
    list.add_variable("count", "int".to_string());
    list.add_field("width", "float".to_string());
    list.add_enum_variant("Red", "Color".to_string());
    list.add_function("print", "fn(string)".to_string());
    list.add_method("__add", "fn(int)".to_string());
    list.add_method("push", "fn(T)".to_string());
    list.add_type("Map<K, V>", None);
    list.add_type("Map<string, int>", Some("Dict"));
    let items = list.consume();
    assert_eq!(labels(&items), vec!["count", "width", "Red", "print(…)", "push(…)", "Map<K, V>", "Dict"]);
    let kinds: Vec<_> = items.iter().map(|item| item.kind).collect();
    assert_eq!(kinds, vec![
        Some(CompletionItemKind::Variable),
        Some(CompletionItemKind::Field),
        Some(CompletionItemKind::EnumMember),
        Some(CompletionItemKind::Function),
        Some(CompletionItemKind::Method),
        Some(CompletionItemKind::Class),
        Some(CompletionItemKind::Class),
    ]);
    assert_eq!(items[0].description.as_deref(), Some("int"));
    assert_eq!(items[2].description.as_deref(), Some("Color"));
    assert_eq!(items[5].description.as_deref(), Some("(type) Map<K, V>"));
    assert_eq!(items[6].description.as_deref(), Some("(type) Map<string, int>"));
}

fn member(name: &str, ty: &str) -> MemberInfo {
    MemberInfo { name: name.to_string(), type_text: ty.to_string() }
}

fn area(file: &str, start: usize, end: usize, field: &str) -> (ItemLocation, CompletionDetails) {
    (
        ItemLocation { file_path: file.to_string(), start, end },
        CompletionDetails::Field(TypeMembers { fields: vec![member(field, "int")], methods: vec![] }),
    )
}

#[test]
fn areas_offer_fields_then_public_methods() {
    let members = TypeMembers {
        fields: vec![member("x", "int"), member("y", "int")],
        methods: vec![member("__get", "fn()"), member("len", "fn() -> int"), member("_private", "fn()")],
    };
    let area = CompletionArea {
        location: ItemLocation { file_path: "a.lt".to_string(), start: 10, end: 12 },
        details: CompletionDetails::Field(members),
    };
    assert!(area.contains_cursor(10));
    assert!(area.contains_cursor(12));
    assert!(!area.contains_cursor(13));
    assert!(!area.contains_cursor(9));
    let items = area.provide_completion_items();
    assert_eq!(labels(&items), vec!["x", "y", "len", "_private"]);
    assert_eq!(items[1].kind, Some(CompletionItemKind::Field));
    assert_eq!(items[2].kind, Some(CompletionItemKind::Method));
    assert_eq!(items[2].description.as_deref(), Some("fn() -> int"));
}

fn first_field(index: &CompletionAreaIndex, file: &str, cursor: usize) -> Option<String> {
    index.get(file, cursor).map(|area| match &area.details {
        CompletionDetails::Field(members) => members.fields[0].name.clone(),
    })
}

#[test]
fn the_index_finds_the_first_area_under_the_cursor() {
    let mut index = CompletionAreaIndex::new();
    assert!(index.get("a.lt", 0).is_none());
    let (l, d) = area("a.lt", 0, 10, "first");
    index.insert(l, d);
    let (l, d) = area("b.lt", 0, 10, "other_file");
    index.insert(l, d);
    let (l, d) = area("a.lt", 5, 20, "second");
    index.insert(l, d);
    assert_eq!(first_field(&index, "a.lt", 7), Some("first".to_string()));
    assert_eq!(first_field(&index, "a.lt", 15), Some("second".to_string()));
    assert_eq!(first_field(&index, "a.lt", 21), None);
    assert_eq!(first_field(&index, "b.lt", 10), Some("other_file".to_string()));
    assert_eq!(first_field(&index, "c.lt", 1), None);
}
