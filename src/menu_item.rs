use crate::classes::{class_texts, flag_class, push_class, push_flag};
use vstd::prelude::*;

verus! {

/// The class list of a menu item: its stylesheet's class, the caller's
/// class, then `disabled` where that holds.
pub fn format_classes(style: String, class: String, disabled: bool) -> (r: Vec<String>)
    ensures
        class_texts(r@) == seq![style@, class@] + flag_class(disabled, "disabled"@),
{
    let ghost (style_text, class_text) = (style@, class@);
    let mut list: Vec<String> = Vec::new();
    assert(class_texts(list@) =~= Seq::empty());
    push_class(&mut list, style);
    push_class(&mut list, class);
    push_flag(&mut list, disabled, "disabled");
    assert(class_texts(list@) =~= seq![style_text, class_text] + flag_class(disabled, "disabled"@));
    list
}

} // verus!
