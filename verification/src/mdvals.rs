//! The value model of a parsed Markdown outline: titles, sections and
//! nested item lists.

use vstd::prelude::*;

verus! {

/// A heading with its text and level.
#[derive(Debug, PartialEq, Eq)]
pub struct Title {
    pub content: String,
    pub level: u8,
}

/// One node of a Markdown outline.
#[derive(Debug, PartialEq, Eq)]
pub enum MdValue {
    Section(String),
    OneTitle(Title),
    Items(Vec<MdValue>),
    Item(String),
}

} // verus!
