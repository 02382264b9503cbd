use ui_theme::button::{self, ButtonColor, ButtonSize, ButtonType, ButtonVariant};
use ui_theme::button_icon::{self, ButtonIconPosition, ButtonIconSize};
use ui_theme::menu_item;
use ui_theme::table::TableSize;
use ui_theme::table_cell::{self, TableCellAlign, TableCellVariant};

#[test]
fn button_style_and_size_classes() {
    assert_eq!(
        button::get_style_class(&ButtonVariant::Contained, &ButtonColor::Primary),
        "primary-contained"
    );
    assert_eq!(
        button::get_style_class(&ButtonVariant::Inline, &ButtonColor::Error),
        "error-inline"
    );
    assert_eq!(button::get_size_class(&ButtonSize::Large), "size-large");
    assert_eq!(button::get_type(&ButtonType::Submit), "submit");
    assert_eq!(button::get_type(&ButtonType::Button), "button");
}

#[test]
fn button_class_list() {
    let list = button::format_classes(
        String::from("button-abc"),
        String::from("mine"),
        &ButtonVariant::Outlined,
        &ButtonColor::Secondary,
        &ButtonSize::Small,
        true,
        false,
        true,
    );
    assert_eq!(
        list,
        vec!["button-abc", "mine", "secondary-outlined", "size-small", "disabled", "fullwidth"]
    );
}

#[test]
fn button_icon_classes() {
    assert_eq!(button_icon::get_size_class(&ButtonIconSize::Medium), "size-medium");
    assert_eq!(button_icon::get_position_class(&ButtonIconPosition::End), "position-end");
    let list = button_icon::format_classes(
        String::from("s"),
        String::new(),
        &ButtonIconSize::Small,
        &ButtonIconPosition::Start,
    );
    assert_eq!(list, vec!["s", "", "size-small", "position-start"]);
}

#[test]
fn table_cell_classes() {
    assert_eq!(table_cell::get_align_class(&TableCellAlign::Center), "align-center");
    assert_eq!(table_cell::get_size_class(&TableSize::Small), "size-small");
    assert_eq!(table_cell::cell_tag(&Some(TableCellVariant::Head)), "th");
    assert_eq!(table_cell::cell_tag(&Some(TableCellVariant::Body)), "td");
    assert_eq!(table_cell::cell_tag(&None), "td");
    let list = table_cell::format_classes(
        String::from("c"),
        String::from("x"),
        &TableSize::Medium,
        &TableCellAlign::Right,
    );
    assert_eq!(list, vec!["c", "x", "size-medium", "align-right"]);
}

#[test]
fn menu_item_classes() {
    assert_eq!(
        menu_item::format_classes(String::from("m"), String::from("k"), true),
        vec!["m", "k", "disabled"]
    );
    assert_eq!(
        menu_item::format_classes(String::from("m"), String::from("k"), false),
        vec!["m", "k"]
    );
}
