use crate::classes::{class_texts, prefixed, push_class};
use crate::table::{table_size_word, TableSize};
use vstd::prelude::*;

verus! {

#[derive(Clone, Copy, Debug, PartialEq, Eq, Structural)]
pub enum TableCellVariant {
    Head,
    Body,
}

#[derive(Clone, Copy, Debug, PartialEq, Eq, Structural)]
pub enum TableCellAlign {
    Right,
    Left,
    Center,
}

pub open spec fn align_word(a: TableCellAlign) -> Seq<char> {
    match a {
        TableCellAlign::Left => "left"@,
        TableCellAlign::Right => "right"@,
        TableCellAlign::Center => "center"@,
    }
}

/// The class of an alignment: `align-<align>`.
pub open spec fn align_class(a: TableCellAlign) -> Seq<char> {
    "align"@ + "-"@ + align_word(a)
}

/// The class of a size: `size-<size>`.
pub open spec fn cell_size_class(s: TableSize) -> Seq<char> {
    "size"@ + "-"@ + table_size_word(s)
}

/// The element of a cell: `th` in a head, `td` otherwise.
pub open spec fn cell_tag_text(variant: Option<TableCellVariant>) -> Seq<char> {
    match variant {
        Some(TableCellVariant::Head) => "th"@,
        _ => "td"@,
    }
}

pub fn get_align_class(size: &TableCellAlign) -> (r: String)
    ensures
        r@ == align_class(*size),
{
    let s = match size {
        TableCellAlign::Left => "left",
        TableCellAlign::Right => "right",
        TableCellAlign::Center => "center",
    };
    prefixed("align", s)
}

pub fn get_size_class(size: &TableSize) -> (r: String)
    ensures
        r@ == cell_size_class(*size),
{
    let s = match size {
        TableSize::Small => "small",
        TableSize::Medium => "medium",
    };
    prefixed("size", s)
}

/// The element that a cell renders as.
pub fn cell_tag(variant: &Option<TableCellVariant>) -> (r: String)
    ensures
        r@ == cell_tag_text(*variant),
{
    match variant {
        Some(TableCellVariant::Head) => String::from_str("th"),
        _ => String::from_str("td"),
    }
}

/// The class list of a cell: its stylesheet's class, the caller's class,
/// then its size and alignment classes.
pub fn format_classes(
    style: String,
    class: String,
    size: &TableSize,
    align: &TableCellAlign,
) -> (r: Vec<String>)
    ensures
        class_texts(r@) == seq![style@, class@, cell_size_class(*size), align_class(*align)],
{
    let ghost (style_text, class_text) = (style@, class@);
    let mut list: Vec<String> = Vec::new();
    assert(class_texts(list@) =~= Seq::empty());
    push_class(&mut list, style);
    push_class(&mut list, class);
    push_class(&mut list, get_size_class(size));
    push_class(&mut list, get_align_class(align));
    assert(class_texts(list@) =~= seq![
        style_text,
        class_text,
        cell_size_class(*size),
        align_class(*align),
    ]);
    list
}

} // verus!
