use crate::classes::{class_texts, prefixed, push_class};
use vstd::prelude::*;

verus! {

#[derive(Clone, Copy, Debug, PartialEq, Eq, Structural)]
pub enum ButtonIconSize {
    Small,
    Medium,
    Large,
}

#[derive(Clone, Copy, Debug, PartialEq, Eq, Structural)]
pub enum ButtonIconPosition {
    Start,
    End,
}

pub open spec fn icon_size_word(s: ButtonIconSize) -> Seq<char> {
    match s {
        ButtonIconSize::Small => "small"@,
        ButtonIconSize::Medium => "medium"@,
        ButtonIconSize::Large => "large"@,
    }
}

pub open spec fn position_word(p: ButtonIconPosition) -> Seq<char> {
    match p {
        ButtonIconPosition::Start => "start"@,
        ButtonIconPosition::End => "end"@,
    }
}

/// The class of a size: `size-<size>`.
pub open spec fn icon_size_class(s: ButtonIconSize) -> Seq<char> {
    "size"@ + "-"@ + icon_size_word(s)
}

/// The class of a position: `position-<position>`.
pub open spec fn position_class(p: ButtonIconPosition) -> Seq<char> {
    "position"@ + "-"@ + position_word(p)
}

pub fn get_size_class(size: &ButtonIconSize) -> (r: String)
    ensures
        r@ == icon_size_class(*size),
{
    let s = match size {
        ButtonIconSize::Small => "small",
        ButtonIconSize::Medium => "medium",
        ButtonIconSize::Large => "large",
    };
    prefixed("size", s)
}

pub fn get_position_class(size: &ButtonIconPosition) -> (r: String)
    ensures
        r@ == position_class(*size),
{
    let s = match size {
        ButtonIconPosition::Start => "start",
        ButtonIconPosition::End => "end",
    };
    prefixed("position", s)
}

/// The class list of an icon slot: its stylesheet's class, the caller's
/// class, then its size and position classes.
pub fn format_classes(
    style: String,
    class: String,
    size: &ButtonIconSize,
    position: &ButtonIconPosition,
) -> (r: Vec<String>)
    ensures
        class_texts(r@) == seq![style@, class@, icon_size_class(*size), position_class(*position)],
{
    let ghost (style_text, class_text) = (style@, class@);
    let mut list: Vec<String> = Vec::new();
    assert(class_texts(list@) =~= Seq::empty());
    push_class(&mut list, style);
    push_class(&mut list, class);
    push_class(&mut list, get_size_class(size));
    push_class(&mut list, get_position_class(position));
    assert(class_texts(list@) =~= seq![
        style_text,
        class_text,
        icon_size_class(*size),
        position_class(*position),
    ]);
    list
}

} // verus!
