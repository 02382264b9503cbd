use vstd::prelude::*;

verus! {

/// The texts of a list of class names.
pub open spec fn class_texts(list: Seq<String>) -> Seq<Seq<char>> {
    list.map_values(|s: String| s@)
}

/// `word` when `on` holds, else nothing.
pub open spec fn flag_class(on: bool, word: Seq<char>) -> Seq<Seq<char>> {
    if on {
        seq![word]
    } else {
        Seq::empty()
    }
}

/// Appends a class name to a list.
pub(crate) fn push_class(list: &mut Vec<String>, name: String)
    ensures
        class_texts(final(list)@) == class_texts(old(list)@).push(name@),
{
    list.push(name);
    assert(class_texts(final(list)@) =~= class_texts(old(list)@).push(name@));
}

/// Appends `word` to a list when `on` holds.
pub(crate) fn push_flag(list: &mut Vec<String>, on: bool, word: &str)
    ensures
        class_texts(final(list)@) == class_texts(old(list)@) + flag_class(on, word@),
{
    if on {
        push_class(list, String::from_str(word));
    }
    assert(class_texts(final(list)@) =~= class_texts(old(list)@) + flag_class(on, word@));
}

/// Joins `prefix`, `-` and `word`.
pub(crate) fn prefixed(prefix: &str, word: &str) -> (r: String)
    ensures
        r@ == prefix@ + "-"@ + word@,
{
    let mut text = String::from_str(prefix);
    text.append("-");
    text.append(word);
    text
}

/// The texts of a list of placeholder and value pairs.
pub open spec fn token_texts(list: Seq<(String, String)>) -> Seq<(Seq<char>, Seq<char>)> {
    list.map_values(|p: (String, String)| (p.0@, p.1@))
}

/// Appends the pair of a placeholder and its value to a list.
pub(crate) fn push_token(list: &mut Vec<(String, String)>, key: &str, value: String)
    ensures
        token_texts(final(list)@) == token_texts(old(list)@).push((key@, value@)),
{
    let ghost value_text = value@;
    list.push((String::from_str(key), value));
    assert(token_texts(final(list)@) =~= token_texts(old(list)@).push((key@, value_text)));
}

} // verus!
