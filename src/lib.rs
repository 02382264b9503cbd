pub mod button;
pub mod button_icon;
pub mod classes;
pub mod menu_item;
pub mod table;
pub mod table_cell;
pub mod theme;
