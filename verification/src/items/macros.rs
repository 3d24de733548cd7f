//! Macros: `#` and a name, standing for something that the compiler knows
//! where the macro is written (the current type, the field or variant being
//! iterated over, one of the program's main types).
use vstd::prelude::*;
use crate::items::identifier::Identifier;
use crate::items::macro_expression::{MacroExpression, MacroExpressionValue};
use crate::items::macro_identifier::{MacroIdentifier, MacroIdentifierValue};
use crate::items::macro_type::{MacroType, MacroTypeValue};
use crate::reader;
use crate::reader::{identifier_length_at, ItemLocation, Reader};
use crate::text::text_eq;

verus! {

/// The types that every program has.
#[derive(Clone, Copy, Debug, PartialEq, Eq, Structural)]
pub enum MainType {
    World,
    User,
    Window,
    LocalData,
}

/// What a macro reads from the place where it is written.
#[derive(Clone, Copy, Debug, PartialEq, Eq, Structural)]
pub enum MacroTarget {
    /// The type whose method holds the macro.
    CurrentType,
    /// The field that an `iter_fields` block is at.
    CurrentField,
    /// The variant that an `iter_variants` block is at.
    CurrentVariant,
    /// The ancestor that an `iter_ancestors` block is at.
    CurrentAncestor,
    /// One of the program's main types.
    Main(MainType),
}

/// What a macro expression reads: its type for the macros of the type as a
/// whole, else the field, variant or ancestor that its block is at.
pub open spec fn spec_expression_target(value: MacroExpressionValue) -> MacroTarget {
    match value {
        MacroExpressionValue::TypeId | MacroExpressionValue::TypeName | MacroExpressionValue::TypeShortName
        | MacroExpressionValue::FieldCount | MacroExpressionValue::VariantCount => MacroTarget::CurrentType,
        MacroExpressionValue::FieldName | MacroExpressionValue::FieldDefaultExpression => MacroTarget::CurrentField,
        MacroExpressionValue::VariantName | MacroExpressionValue::VariantValue => MacroTarget::CurrentVariant,
        MacroExpressionValue::AncestorId | MacroExpressionValue::AncestorName => MacroTarget::CurrentAncestor,
    }
}

impl MacroExpression {
    /// What the macro reads.
    pub fn process(&self) -> (result: MacroTarget)
        ensures
            result == spec_expression_target(self.value),
    {
        match &self.value {
            MacroExpressionValue::TypeId | MacroExpressionValue::TypeName | MacroExpressionValue::TypeShortName
            | MacroExpressionValue::FieldCount | MacroExpressionValue::VariantCount => MacroTarget::CurrentType,
            MacroExpressionValue::FieldName | MacroExpressionValue::FieldDefaultExpression => MacroTarget::CurrentField,
            MacroExpressionValue::VariantName | MacroExpressionValue::VariantValue => MacroTarget::CurrentVariant,
            MacroExpressionValue::AncestorId | MacroExpressionValue::AncestorName => MacroTarget::CurrentAncestor,
        }
    }
}

/// What a macro type reads: the type of the current field, or a main type.
pub open spec fn spec_type_target(value: MacroTypeValue) -> MacroTarget {
    match value {
        MacroTypeValue::FieldType => MacroTarget::CurrentField,
        MacroTypeValue::WorldType => MacroTarget::Main(MainType::World),
        MacroTypeValue::UserType => MacroTarget::Main(MainType::User),
        MacroTypeValue::WindowType => MacroTarget::Main(MainType::Window),
        MacroTypeValue::LocalDataType => MacroTarget::Main(MainType::LocalData),
    }
}

impl MacroType {
    /// What the macro reads: the type of the current field, or a main type.
    pub fn process(&self) -> (result: MacroTarget)
        ensures
            result == spec_type_target(self.value),
    {
        match &self.value {
            MacroTypeValue::FieldType => MacroTarget::CurrentField,
            MacroTypeValue::WorldType => MacroTarget::Main(MainType::World),
            MacroTypeValue::UserType => MacroTarget::Main(MainType::User),
            MacroTypeValue::WindowType => MacroTarget::Main(MainType::Window),
            MacroTypeValue::LocalDataType => MacroTarget::Main(MainType::LocalData),
        }
    }
}

/// What a macro identifier reads: the name of the current field, or that of a
/// main type.
pub open spec fn spec_identifier_target(value: MacroIdentifierValue) -> MacroTarget {
    match value {
        MacroIdentifierValue::FieldName => MacroTarget::CurrentField,
        MacroIdentifierValue::WorldType => MacroTarget::Main(MainType::World),
        MacroIdentifierValue::UserType => MacroTarget::Main(MainType::User),
        MacroIdentifierValue::WindowType => MacroTarget::Main(MainType::Window),
        MacroIdentifierValue::LocalDataType => MacroTarget::Main(MainType::LocalData),
    }
}

impl MacroIdentifier {
    /// What the macro reads: the name of the current field, or that of a main type.
    pub fn process(&self) -> (result: MacroTarget)
        ensures
            result == spec_identifier_target(self.value),
    {
        match &self.value {
            MacroIdentifierValue::FieldName => MacroTarget::CurrentField,
            MacroIdentifierValue::WorldType => MacroTarget::Main(MainType::World),
            MacroIdentifierValue::UserType => MacroTarget::Main(MainType::User),
            MacroIdentifierValue::WindowType => MacroTarget::Main(MainType::Window),
            MacroIdentifierValue::LocalDataType => MacroTarget::Main(MainType::LocalData),
        }
    }
}

/// A macro written by name: `#` and an identifier.
pub struct Macro {
    pub location: ItemLocation,
    pub name: Identifier,
}

/// The names that a `Macro` can have.
#[derive(Clone, Copy, Debug, PartialEq, Eq, Structural)]
pub enum MacroName {
    TypeId,
    TypeName,
    TypeShortName,
    FieldCount,
    FieldName,
    FieldType,
    FieldDefaultExpression,
    VariantName,
    VariantValue,
    VariantCount,
    AncestorId,
    AncestorName,
    FirstArgType,
}

impl MacroName {
    /// The name by which the macro is written after `#`: its variant's name
    /// in upper case, with its words joined by underscores.
    pub open spec fn spec_text(self) -> Seq<char> {
        match self {
            MacroName::TypeId => "TYPE_ID"@,
            MacroName::TypeName => "TYPE_NAME"@,
            MacroName::TypeShortName => "TYPE_SHORT_NAME"@,
            MacroName::FieldCount => "FIELD_COUNT"@,
            MacroName::FieldName => "FIELD_NAME"@,
            MacroName::FieldType => "FIELD_TYPE"@,
            MacroName::FieldDefaultExpression => "FIELD_DEFAULT_EXPRESSION"@,
            MacroName::VariantName => "VARIANT_NAME"@,
            MacroName::VariantValue => "VARIANT_VALUE"@,
            MacroName::VariantCount => "VARIANT_COUNT"@,
            MacroName::AncestorId => "ANCESTOR_ID"@,
            MacroName::AncestorName => "ANCESTOR_NAME"@,
            MacroName::FirstArgType => "FIRST_ARG_TYPE"@,
        }
    }
}

/// Where a macro is written: inside a method of a type or not, and inside
/// which iteration blocks.
#[derive(Clone, Copy, Debug, PartialEq, Eq, Structural)]
pub struct MacroScope {
    pub in_type: bool,
    pub in_iter_fields: bool,
    pub in_iter_variants: bool,
    pub in_iter_ancestors: bool,
}

/// Why a macro cannot be used where it is written.
#[derive(Clone, Copy, Debug, PartialEq, Eq, Structural)]
pub enum MacroError {
    /// No macro has this name.
    Unknown,
    /// Macros are only read inside a method.
    OutsideMethod,
    OutsideIterFields,
    OutsideIterVariants,
    OutsideIterAncestors,
}

/// The macro that the name `name` designates.
pub open spec fn spec_macro_name(name: Seq<char>) -> Option<MacroName> {
    if name == "TYPE_ID"@ {
        Some(MacroName::TypeId)
    } else if name == "TYPE_NAME"@ {
        Some(MacroName::TypeName)
    } else if name == "TYPE_SHORT_NAME"@ {
        Some(MacroName::TypeShortName)
    } else if name == "FIELD_COUNT"@ {
        Some(MacroName::FieldCount)
    } else if name == "FIELD_TYPE"@ {
        Some(MacroName::FieldType)
    } else if name == "FIELD_NAME"@ {
        Some(MacroName::FieldName)
    } else if name == "FIELD_DEFAULT_EXPRESSION"@ {
        Some(MacroName::FieldDefaultExpression)
    } else if name == "VARIANT_NAME"@ {
        Some(MacroName::VariantName)
    } else if name == "VARIANT_VALUE"@ {
        Some(MacroName::VariantValue)
    } else if name == "VARIANT_COUNT"@ {
        Some(MacroName::VariantCount)
    } else if name == "ANCESTOR_ID"@ {
        Some(MacroName::AncestorId)
    } else if name == "ANCESTOR_NAME"@ {
        Some(MacroName::AncestorName)
    } else if name == "FIRST_ARG_TYPE"@ {
        Some(MacroName::FirstArgType)
    } else {
        None
    }
}

/// Whether the macro `mac` can be read in `scope`, and why not.
pub open spec fn spec_check_scope(mac: MacroName, scope: MacroScope) -> Result<MacroName, MacroError> {
    if !scope.in_type {
        Err(MacroError::OutsideMethod)
    } else {
        match mac {
            MacroName::FieldName | MacroName::FieldType | MacroName::FieldDefaultExpression => if scope.in_iter_fields {
                Ok(mac)
            } else {
                Err(MacroError::OutsideIterFields)
            },
            MacroName::VariantName | MacroName::VariantValue => if scope.in_iter_variants {
                Ok(mac)
            } else {
                Err(MacroError::OutsideIterVariants)
            },
            MacroName::AncestorId | MacroName::AncestorName => if scope.in_iter_ancestors {
                Ok(mac)
            } else {
                Err(MacroError::OutsideIterAncestors)
            },
            _ => Ok(mac),
        }
    }
}

impl Macro {
    /// The parsed name, where the item's location ends and where the reader
    /// then stands.
    pub open spec fn spec_parse(bytes: Seq<u8>, pos: int, comment: Option<Seq<u8>>) -> Option<(Seq<u8>, int, int)> {
        if reader::token_at(bytes, pos, "#"@) {
            let p = reader::after_token(bytes, pos, "#"@, comment);
            match Identifier::spec_parse(bytes, p, comment, identifier_length_at(bytes, p)) {
                Some((name, _, after)) => Some((name, reader::backtrack_blanks(bytes, after), after)),
                None => None,
            }
        } else {
            None
        }
    }

    pub fn parse_item(reader: &mut Reader) -> (result: Option<Self>)
        requires
            old(reader).wf(),
        ensures
            final(reader).wf(),
            final(reader).same_text(old(reader)),
            final(reader).error_state() == if reader::token_at(old(reader).bytes(), old(reader).pos(), "#"@) {
                let p = reader::after_token(old(reader).bytes(), old(reader).pos(), "#"@, old(reader).comment());
                if identifier_length_at(old(reader).bytes(), p) > 0 {
                    old(reader).error_state()
                } else {
                    reader::record_expected(old(reader).error_state(), p, "identifier"@)
                }
            } else {
                reader::record_expected(old(reader).error_state(), old(reader).pos(), reader::quoted("#"@))
            },
            match Self::spec_parse(old(reader).bytes(), old(reader).pos(), old(reader).comment()) {
                Some((name, location_end, end)) => {
                    &&& result matches Some(item)
                    &&& vstd::utf8::encode_utf8(item.name.value@) == name
                    &&& item.location.file_path@ == old(reader).path()
                    &&& item.location.start == old(reader).pos()
                    &&& item.location.end == location_end
                    &&& final(reader).pos() == end
                },
                None => result is None && final(reader).pos() == old(reader).pos(),
            },
    {
        let start = reader.get_index();
        proof {
            reveal_strlit("#");
        }
        if !reader.read_string("#") {
            reader.set_expected_string("#");
            return None;
        }
        reader.eat_spaces();
        match Identifier::parse_item(reader) {
            Some(name) => {
                let location = reader.get_item_location(start);
                Some(Macro { location, name })
            },
            None => {
                reader.set_expected_entity(String::from_str("identifier"));
                reader.set_index(start);
                None
            },
        }
    }

    /// The macro that the name designates.
    pub fn to_enum(&self) -> (result: Option<MacroName>)
        ensures
            result == spec_macro_name(self.name.value@),
    {
        let name = self.name.as_str();
        if text_eq(name, "TYPE_ID") {
            Some(MacroName::TypeId)
        } else if text_eq(name, "TYPE_NAME") {
            Some(MacroName::TypeName)
        } else if text_eq(name, "TYPE_SHORT_NAME") {
            Some(MacroName::TypeShortName)
        } else if text_eq(name, "FIELD_COUNT") {
            Some(MacroName::FieldCount)
        } else if text_eq(name, "FIELD_TYPE") {
            Some(MacroName::FieldType)
        } else if text_eq(name, "FIELD_NAME") {
            Some(MacroName::FieldName)
        } else if text_eq(name, "FIELD_DEFAULT_EXPRESSION") {
            Some(MacroName::FieldDefaultExpression)
        } else if text_eq(name, "VARIANT_NAME") {
            Some(MacroName::VariantName)
        } else if text_eq(name, "VARIANT_VALUE") {
            Some(MacroName::VariantValue)
        } else if text_eq(name, "VARIANT_COUNT") {
            Some(MacroName::VariantCount)
        } else if text_eq(name, "ANCESTOR_ID") {
            Some(MacroName::AncestorId)
        } else if text_eq(name, "ANCESTOR_NAME") {
            Some(MacroName::AncestorName)
        } else if text_eq(name, "FIRST_ARG_TYPE") {
            Some(MacroName::FirstArgType)
        } else {
            None
        }
    }

    /// The macro, if it can be read in `scope`; else why not.
    pub fn check_macro_context(&self, scope: MacroScope) -> (result: Result<MacroName, MacroError>)
        ensures
            result == match spec_macro_name(self.name.value@) {
                Some(mac) => spec_check_scope(mac, scope),
                None => Err(MacroError::Unknown),
            },
    {
        let mac = match self.to_enum() {
            Some(mac) => mac,
            None => {
                return Err(MacroError::Unknown);
            },
        };
        if !scope.in_type {
            return Err(MacroError::OutsideMethod);
        }
        match mac {
            MacroName::FieldName | MacroName::FieldType | MacroName::FieldDefaultExpression => if scope.in_iter_fields {
                Ok(mac)
            } else {
                Err(MacroError::OutsideIterFields)
            },
            MacroName::VariantName | MacroName::VariantValue => if scope.in_iter_variants {
                Ok(mac)
            } else {
                Err(MacroError::OutsideIterVariants)
            },
            MacroName::AncestorId | MacroName::AncestorName => if scope.in_iter_ancestors {
                Ok(mac)
            } else {
                Err(MacroError::OutsideIterAncestors)
            },
            _ => Ok(mac),
        }
    }

    /// The macro, if it can be read as a type in `scope`: only `FIELD_TYPE`,
    /// inside an `iter_fields` block, stands for a type.
    pub fn process_as_type(&self, scope: MacroScope) -> (result: Option<MacroName>)
        ensures
            result == match spec_macro_name(self.name.value@) {
                Some(mac) => match spec_check_scope(mac, scope) {
                    Ok(MacroName::FieldType) => Some(MacroName::FieldType),
                    _ => None,
                },
                None => None,
            },
    {
        match self.check_macro_context(scope) {
            Ok(MacroName::FieldType) => Some(MacroName::FieldType),
            _ => None,
        }
    }

    /// The macro, if it can be read as a value in `scope`: every macro but
    /// `FIELD_TYPE` stands for a value.
    pub fn process_as_value(&self, scope: MacroScope) -> (result: Option<MacroName>)
        ensures
            result == match spec_macro_name(self.name.value@) {
                Some(mac) => match spec_check_scope(mac, scope) {
                    Ok(MacroName::FieldType) => None,
                    Ok(m) => Some(m),
                    Err(_) => None,
                },
                None => None,
            },
    {
        match self.check_macro_context(scope) {
            Ok(MacroName::FieldType) => None,
            Ok(m) => Some(m),
            Err(_) => None,
        }
    }

    /// The name that the macro stands for in `scope`: only `FIELD_NAME`, inside
    /// an `iter_fields` block at the field named `field_name`, stands for a
    /// name, which is written where the macro is.
    pub fn process_as_name(&self, scope: MacroScope, field_name: &str) -> (result: Option<Identifier>)
        ensures
            match result {
                Some(identifier) => {
                    &&& spec_macro_name(self.name.value@) == Some(MacroName::FieldName)
                    &&& spec_check_scope(MacroName::FieldName, scope) is Ok
                    &&& identifier.value@ == field_name@
                    &&& identifier.location.file_path@ == self.location.file_path@
                    &&& identifier.location.start == self.location.start
                    &&& identifier.location.end == self.location.end
                },
                None => !(spec_macro_name(self.name.value@) == Some(MacroName::FieldName)
                    && spec_check_scope(MacroName::FieldName, scope) is Ok),
            },
    {
        match self.check_macro_context(scope) {
            Ok(MacroName::FieldName) => Some(Identifier::new(field_name, &self.location)),
            _ => None,
        }
    }
}

/// Every macro is designated by its own name and by no other: the name of
/// `m` designates `m` (`VARIANT_NAME` the variant's name, `VARIANT_VALUE`
/// its value), and a name that designates `m` is the name of `m`.
pub proof fn law_macro_names(m: MacroName, name: Seq<char>)
    ensures
        spec_macro_name(m.spec_text()) == Some(m),
        spec_macro_name(name) == Some(m) ==> name == m.spec_text(),
{
    reveal_strlit("TYPE_ID");
    reveal_strlit("TYPE_NAME");
    reveal_strlit("TYPE_SHORT_NAME");
    reveal_strlit("FIELD_COUNT");
    reveal_strlit("FIELD_TYPE");
    reveal_strlit("FIELD_NAME");
    reveal_strlit("FIELD_DEFAULT_EXPRESSION");
    reveal_strlit("VARIANT_NAME");
    reveal_strlit("VARIANT_VALUE");
    reveal_strlit("VARIANT_COUNT");
    reveal_strlit("ANCESTOR_ID");
    reveal_strlit("ANCESTOR_NAME");
    reveal_strlit("FIRST_ARG_TYPE");
    match m {
        MacroName::TypeId => {
        },
        MacroName::TypeName => {
            assert("TYPE_NAME"@.len() != "TYPE_ID"@.len());
        },
        MacroName::TypeShortName => {
            assert("TYPE_SHORT_NAME"@.len() != "TYPE_ID"@.len());
            assert("TYPE_SHORT_NAME"@.len() != "TYPE_NAME"@.len());
        },
        MacroName::FieldCount => {
            assert("FIELD_COUNT"@.len() != "TYPE_ID"@.len());
            assert("FIELD_COUNT"@.len() != "TYPE_NAME"@.len());
            assert("FIELD_COUNT"@.len() != "TYPE_SHORT_NAME"@.len());
        },
        MacroName::FieldType => {
            assert("FIELD_TYPE"@.len() != "TYPE_ID"@.len());
            assert("FIELD_TYPE"@.len() != "TYPE_NAME"@.len());
            assert("FIELD_TYPE"@.len() != "TYPE_SHORT_NAME"@.len());
            assert("FIELD_TYPE"@.len() != "FIELD_COUNT"@.len());
        },
        MacroName::FieldName => {
            assert("FIELD_NAME"@.len() != "TYPE_ID"@.len());
            assert("FIELD_NAME"@.len() != "TYPE_NAME"@.len());
            assert("FIELD_NAME"@.len() != "TYPE_SHORT_NAME"@.len());
            assert("FIELD_NAME"@.len() != "FIELD_COUNT"@.len());
            assert("FIELD_NAME"@[6] != "FIELD_TYPE"@[6]);
        },
        MacroName::FieldDefaultExpression => {
            assert("FIELD_DEFAULT_EXPRESSION"@.len() != "TYPE_ID"@.len());
            assert("FIELD_DEFAULT_EXPRESSION"@.len() != "TYPE_NAME"@.len());
            assert("FIELD_DEFAULT_EXPRESSION"@.len() != "TYPE_SHORT_NAME"@.len());
            assert("FIELD_DEFAULT_EXPRESSION"@.len() != "FIELD_COUNT"@.len());
            assert("FIELD_DEFAULT_EXPRESSION"@.len() != "FIELD_TYPE"@.len());
            assert("FIELD_DEFAULT_EXPRESSION"@.len() != "FIELD_NAME"@.len());
        },
        MacroName::VariantName => {
            assert("VARIANT_NAME"@.len() != "TYPE_ID"@.len());
            assert("VARIANT_NAME"@.len() != "TYPE_NAME"@.len());
            assert("VARIANT_NAME"@.len() != "TYPE_SHORT_NAME"@.len());
            assert("VARIANT_NAME"@.len() != "FIELD_COUNT"@.len());
            assert("VARIANT_NAME"@.len() != "FIELD_TYPE"@.len());
            assert("VARIANT_NAME"@.len() != "FIELD_NAME"@.len());
            assert("VARIANT_NAME"@.len() != "FIELD_DEFAULT_EXPRESSION"@.len());
        },
        MacroName::VariantValue => {
            assert("VARIANT_VALUE"@.len() != "TYPE_ID"@.len());
            assert("VARIANT_VALUE"@.len() != "TYPE_NAME"@.len());
            assert("VARIANT_VALUE"@.len() != "TYPE_SHORT_NAME"@.len());
            assert("VARIANT_VALUE"@.len() != "FIELD_COUNT"@.len());
            assert("VARIANT_VALUE"@.len() != "FIELD_TYPE"@.len());
            assert("VARIANT_VALUE"@.len() != "FIELD_NAME"@.len());
            assert("VARIANT_VALUE"@.len() != "FIELD_DEFAULT_EXPRESSION"@.len());
            assert("VARIANT_VALUE"@.len() != "VARIANT_NAME"@.len());
        },
        MacroName::VariantCount => {
            assert("VARIANT_COUNT"@.len() != "TYPE_ID"@.len());
            assert("VARIANT_COUNT"@.len() != "TYPE_NAME"@.len());
            assert("VARIANT_COUNT"@.len() != "TYPE_SHORT_NAME"@.len());
            assert("VARIANT_COUNT"@.len() != "FIELD_COUNT"@.len());
            assert("VARIANT_COUNT"@.len() != "FIELD_TYPE"@.len());
            assert("VARIANT_COUNT"@.len() != "FIELD_NAME"@.len());
            assert("VARIANT_COUNT"@.len() != "FIELD_DEFAULT_EXPRESSION"@.len());
            assert("VARIANT_COUNT"@.len() != "VARIANT_NAME"@.len());
            assert("VARIANT_COUNT"@[8] != "VARIANT_VALUE"@[8]);
        },
        MacroName::AncestorId => {
            assert("ANCESTOR_ID"@.len() != "TYPE_ID"@.len());
            assert("ANCESTOR_ID"@.len() != "TYPE_NAME"@.len());
            assert("ANCESTOR_ID"@.len() != "TYPE_SHORT_NAME"@.len());
            assert("ANCESTOR_ID"@[0] != "FIELD_COUNT"@[0]);
            assert("ANCESTOR_ID"@.len() != "FIELD_TYPE"@.len());
            assert("ANCESTOR_ID"@.len() != "FIELD_NAME"@.len());
            assert("ANCESTOR_ID"@.len() != "FIELD_DEFAULT_EXPRESSION"@.len());
            assert("ANCESTOR_ID"@.len() != "VARIANT_NAME"@.len());
            assert("ANCESTOR_ID"@.len() != "VARIANT_VALUE"@.len());
            assert("ANCESTOR_ID"@.len() != "VARIANT_COUNT"@.len());
        },
        MacroName::AncestorName => {
            assert("ANCESTOR_NAME"@.len() != "TYPE_ID"@.len());
            assert("ANCESTOR_NAME"@.len() != "TYPE_NAME"@.len());
            assert("ANCESTOR_NAME"@.len() != "TYPE_SHORT_NAME"@.len());
            assert("ANCESTOR_NAME"@.len() != "FIELD_COUNT"@.len());
            assert("ANCESTOR_NAME"@.len() != "FIELD_TYPE"@.len());
            assert("ANCESTOR_NAME"@.len() != "FIELD_NAME"@.len());
            assert("ANCESTOR_NAME"@.len() != "FIELD_DEFAULT_EXPRESSION"@.len());
            assert("ANCESTOR_NAME"@.len() != "VARIANT_NAME"@.len());
            assert("ANCESTOR_NAME"@[0] != "VARIANT_VALUE"@[0]);
            assert("ANCESTOR_NAME"@[0] != "VARIANT_COUNT"@[0]);
            assert("ANCESTOR_NAME"@.len() != "ANCESTOR_ID"@.len());
        },
        MacroName::FirstArgType => {
            assert("FIRST_ARG_TYPE"@.len() != "TYPE_ID"@.len());
            assert("FIRST_ARG_TYPE"@.len() != "TYPE_NAME"@.len());
            assert("FIRST_ARG_TYPE"@.len() != "TYPE_SHORT_NAME"@.len());
            assert("FIRST_ARG_TYPE"@.len() != "FIELD_COUNT"@.len());
            assert("FIRST_ARG_TYPE"@.len() != "FIELD_TYPE"@.len());
            assert("FIRST_ARG_TYPE"@.len() != "FIELD_NAME"@.len());
            assert("FIRST_ARG_TYPE"@.len() != "FIELD_DEFAULT_EXPRESSION"@.len());
            assert("FIRST_ARG_TYPE"@.len() != "VARIANT_NAME"@.len());
            assert("FIRST_ARG_TYPE"@.len() != "VARIANT_VALUE"@.len());
            assert("FIRST_ARG_TYPE"@.len() != "VARIANT_COUNT"@.len());
            assert("FIRST_ARG_TYPE"@.len() != "ANCESTOR_ID"@.len());
            assert("FIRST_ARG_TYPE"@.len() != "ANCESTOR_NAME"@.len());
        },
    }
}

/// A macro is read only inside a method, and then as itself: the macros of
/// fields, of variants and of ancestors each need their iteration block,
/// the others need none, and inside every block each macro is read.
pub proof fn law_macro_scope(m: MacroName, scope: MacroScope)
    ensures
        !scope.in_type ==> spec_check_scope(m, scope) == Err::<MacroName, MacroError>(MacroError::OutsideMethod),
        spec_check_scope(m, scope) is Ok ==> spec_check_scope(m, scope) == Ok::<MacroName, MacroError>(m),
        scope.in_type && scope.in_iter_fields && scope.in_iter_variants && scope.in_iter_ancestors
            ==> spec_check_scope(m, scope) == Ok::<MacroName, MacroError>(m),
        scope.in_type && (m == MacroName::TypeId || m == MacroName::TypeName || m == MacroName::TypeShortName
            || m == MacroName::FieldCount || m == MacroName::VariantCount || m == MacroName::FirstArgType)
            ==> spec_check_scope(m, scope) == Ok::<MacroName, MacroError>(m),
        scope.in_type && !scope.in_iter_variants && (m == MacroName::VariantName || m == MacroName::VariantValue)
            ==> spec_check_scope(m, scope) == Err::<MacroName, MacroError>(MacroError::OutsideIterVariants),
        scope.in_type && !scope.in_iter_fields && (m == MacroName::FieldName || m == MacroName::FieldType
            || m == MacroName::FieldDefaultExpression)
            ==> spec_check_scope(m, scope) == Err::<MacroName, MacroError>(MacroError::OutsideIterFields),
        scope.in_type && !scope.in_iter_ancestors && (m == MacroName::AncestorId || m == MacroName::AncestorName)
            ==> spec_check_scope(m, scope) == Err::<MacroName, MacroError>(MacroError::OutsideIterAncestors),
{
}

/// A macro expression reads the thing whose block its name needs: the field
/// of an `iter_fields` block for the macros that need one, the variant or the
/// ancestor likewise, and the current type for the macros that are read
/// anywhere inside a method.
pub proof fn law_expression_targets(e: MacroExpressionValue)
    ensures
        spec_macro_name(e.spec_text()) matches Some(m) && {
            let in_method = MacroScope { in_type: true, in_iter_fields: false, in_iter_variants: false,
                in_iter_ancestors: false };
            &&& (spec_expression_target(e) == MacroTarget::CurrentType) <==> spec_check_scope(m, in_method) is Ok
            &&& (spec_expression_target(e) == MacroTarget::CurrentField)
                <==> spec_check_scope(m, in_method) == Err::<MacroName, MacroError>(MacroError::OutsideIterFields)
            &&& (spec_expression_target(e) == MacroTarget::CurrentVariant)
                <==> spec_check_scope(m, in_method) == Err::<MacroName, MacroError>(MacroError::OutsideIterVariants)
            &&& (spec_expression_target(e) == MacroTarget::CurrentAncestor)
                <==> spec_check_scope(m, in_method) == Err::<MacroName, MacroError>(MacroError::OutsideIterAncestors)
        },
{
    match e {
        MacroExpressionValue::TypeId => law_macro_names(MacroName::TypeId, e.spec_text()),
        MacroExpressionValue::TypeName => law_macro_names(MacroName::TypeName, e.spec_text()),
        MacroExpressionValue::TypeShortName => law_macro_names(MacroName::TypeShortName, e.spec_text()),
        MacroExpressionValue::FieldCount => law_macro_names(MacroName::FieldCount, e.spec_text()),
        MacroExpressionValue::FieldName => law_macro_names(MacroName::FieldName, e.spec_text()),
        MacroExpressionValue::FieldDefaultExpression => law_macro_names(MacroName::FieldDefaultExpression, e.spec_text()),
        MacroExpressionValue::VariantCount => law_macro_names(MacroName::VariantCount, e.spec_text()),
        MacroExpressionValue::VariantName => law_macro_names(MacroName::VariantName, e.spec_text()),
        MacroExpressionValue::VariantValue => law_macro_names(MacroName::VariantValue, e.spec_text()),
        MacroExpressionValue::AncestorId => law_macro_names(MacroName::AncestorId, e.spec_text()),
        MacroExpressionValue::AncestorName => law_macro_names(MacroName::AncestorName, e.spec_text()),
    }
}

/// A macro type and a macro identifier of the same text read the same thing;
/// each reads something of its own, and only the field macros read the
/// current field.
pub proof fn law_type_and_identifier_targets(t: MacroTypeValue, i: MacroIdentifierValue, u: MacroTypeValue,
    j: MacroIdentifierValue)
    ensures
        t.spec_text() == i.spec_text() ==> spec_type_target(t) == spec_identifier_target(i),
        spec_type_target(t) == spec_type_target(u) ==> t == u,
        spec_identifier_target(i) == spec_identifier_target(j) ==> i == j,
        spec_type_target(t) == MacroTarget::CurrentField <==> t.spec_text() == "FIELD_TYPE"@,
        spec_identifier_target(i) == MacroTarget::CurrentField <==> i.spec_text() == "FIELD_NAME"@,
{
    reveal_strlit("FIELD_TYPE");
    reveal_strlit("FIELD_NAME");
    reveal_strlit("WORLD_TYPE");
    reveal_strlit("USER_TYPE");
    reveal_strlit("WINDOW_TYPE");
    reveal_strlit("LOCAL_DATA_TYPE");
    assert("FIELD_TYPE"@[6] != "FIELD_NAME"@[6]);
    assert("FIELD_TYPE"@[0] != "WORLD_TYPE"@[0]);
    assert("FIELD_TYPE"@.len() != "USER_TYPE"@.len());
    assert("FIELD_TYPE"@.len() != "WINDOW_TYPE"@.len());
    assert("FIELD_TYPE"@.len() != "LOCAL_DATA_TYPE"@.len());
    assert("FIELD_NAME"@[0] != "WORLD_TYPE"@[0]);
    assert("FIELD_NAME"@.len() != "USER_TYPE"@.len());
    assert("FIELD_NAME"@.len() != "WINDOW_TYPE"@.len());
    assert("FIELD_NAME"@.len() != "LOCAL_DATA_TYPE"@.len());
    assert("WORLD_TYPE"@.len() != "USER_TYPE"@.len());
    assert("WORLD_TYPE"@.len() != "WINDOW_TYPE"@.len());
    assert("WORLD_TYPE"@.len() != "LOCAL_DATA_TYPE"@.len());
    assert("USER_TYPE"@.len() != "WINDOW_TYPE"@.len());
    assert("USER_TYPE"@.len() != "LOCAL_DATA_TYPE"@.len());
    assert("WINDOW_TYPE"@.len() != "LOCAL_DATA_TYPE"@.len());
}

} // verus!
