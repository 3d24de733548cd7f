//! The items of the language's grammar, each read from source text by a
//! `parse_item` function whose contract says exactly what it reads.
pub mod action_keyword;
pub mod assignment_operator;
pub mod binary_operator;
pub mod event_callback_qualifier;
pub mod macro_expression;
pub mod macro_identifier;
pub mod macro_type;
pub mod method_meta_qualifier;
pub mod brackets;
pub mod as_operation;
pub mod identifier;
pub mod boolean_literal;
pub mod char_literal;
pub mod macros;
pub mod function_body;
pub mod argument_list;
pub mod var_path_root;
pub mod field_or_method_access;
pub mod flex_keyword;
pub mod action;
pub mod branch;
pub mod match_block;
pub mod function_or_method_content;
pub mod function_content;
pub mod for_block;
pub mod event_callback_declaration;
pub mod if_block;
pub mod assignment;
pub mod block_expression;
pub mod array_literal;
pub mod bracket_indexing;
pub mod global_var_declaration;
