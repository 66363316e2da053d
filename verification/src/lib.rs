//! Bulma-flavoured component library: each component turns a configuration
//! record into a markup tree whose class attribute is composed from a fixed
//! base class, caller-supplied extension classes and derived modifier
//! classes, in that order. Controlled form components additionally say, for
//! each change event the host delivers, exactly which value is handed to the
//! owner's update callback.

use vstd::prelude::*;

mod classes;
pub mod columns;
pub mod components;
pub mod elements;
pub mod form;
pub mod layout;
mod markup;
mod render;

pub use classes::{
    class_views, composed, count_class, ext_views, flag_class, opt_mod, ModifierClass,
};
pub use classes::{
    lemma_composed_base_once, lemma_composed_extension_verbatim, lemma_count_concat,
    lemma_count_occurrence, lemma_flag_class_count, lemma_opt_mod_count,
};
pub use markup::{
    attr, attr_models_of, clone_node, clone_nodes, decimal_digits, element, flag_attr, join_with,
    joined, lemma_models_of, models_of, node_eq, nodes_eq, opt_string, opt_strings_eq, opt_text,
    opt_texts_eq, plain_element, text, u32_text, Attr, AttrModel, Node, NodeModel,
};
pub use render::{
    lemma_render_handler_idempotent, lemma_render_idempotent, Render, RenderHandler, Rendered,
};
pub use columns::{lemma_columns_class_counts, Column, ColumnProps, Columns, ColumnsProps};
pub use components::breadcrumb::{
    Breadcrumb, BreadcrumbProps, BreadcrumbSeparator, BreadcrumbSize,
};
pub use components::card::{
    Card, CardContent, CardContentProps, CardFooter, CardFooterProps, CardHeader, CardHeaderProps,
    CardImage, CardImageProps, CardProps,
};
pub use components::menu::{Menu, MenuLabel, MenuLabelProps, MenuList, MenuListProps, MenuProps};
pub use components::message::{
    Message, MessageBody, MessageBodyProps, MessageHeader, MessageHeaderProps, MessageProps,
};
pub use components::panel::{
    Panel, PanelBlock, PanelBlockProps, PanelProps, PanelTabs, PanelTabsProps,
};
pub use components::tabs::{lemma_tabs_class_counts, Tabs, TabsProps};
pub use elements::block::{Block, BlockProps};
pub use elements::button::{
    Button, ButtonAnchor, ButtonAnchorProps, ButtonAnchorRouter, ButtonGroupSize,
    ButtonInputReset, ButtonInputResetProps, ButtonInputSubmit, ButtonInputSubmitProps,
    ButtonProps, ButtonRouter, ButtonRouterProps, Buttons, ButtonsProps, RouterLink,
};
pub use elements::content::{lemma_content_tag_override, Content, ContentProps};
pub use elements::delete::{lemma_delete_tag_override, Delete, DeleteProps};
pub use elements::icon::{Icon, IconProps};
pub use elements::image::{Image, ImageProps, ImageSize};
pub use elements::notification::{
    lemma_notification_change_render, lemma_notification_class_counts, Notification,
    NotificationProps,
};
pub use elements::progress::{Progress, ProgressProps};
pub use elements::table::{
    lemma_table_class_counts, lemma_table_scroll_wrapper, Table, TableProps,
};
pub use elements::tag::{lemma_tag_class_counts, Tag, TagProps, Tags, TagsProps};
pub use elements::title::{
    lemma_title_tag_override, HeaderSize, Subtitle, SubtitleProps, Title, TitleProps,
};
pub use form::checkbox::{lemma_checkbox_round_trip, Checkbox, CheckboxMsg, CheckboxProps};
pub use form::control::{Control, ControlProps};
pub use form::field::{
    lemma_field_class_counts, AddonsAlign, Field, FieldProps, GroupedAlign, LabelSize,
};
pub use form::file::{lemma_file_class_counts, name_entries, File, FileHandle, FileProps};
pub use form::input::{
    lemma_input_class_counts, lemma_input_round_trip, Input, InputMsg, InputProps, InputType,
};
pub use form::radio::{lemma_radio_round_trip, Radio, RadioMsg, RadioProps};
pub use form::select::{
    contributed_values, lemma_multi_select_round_trip, lemma_select_round_trip, MultiSelect,
    MultiSelectMsg, MultiSelectProps, Select, SelectedOption, SelectMsg, SelectProps,
};
pub use form::textarea::{lemma_textarea_round_trip, TextArea, TextAreaMsg, TextAreaProps};
pub use form::UpdateResult;
pub use layout::container::{Container, ContainerProps};
pub use layout::footer::{Footer, FooterProps};
pub use layout::hero::{lemma_hero_class_counts, Hero, HeroProps, HeroSize};
pub use layout::level::{
    lemma_level_tag_override, Level, LevelItem, LevelItemProps, LevelLeft, LevelLeftProps,
    LevelProps, LevelRight, LevelRightProps,
};
pub use layout::media::{
    lemma_media_tag_override, Media, MediaContent, MediaContentProps, MediaLeft, MediaLeftProps,
    MediaProps, MediaRight, MediaRightProps,
};

verus! {

/// The four common component sizes.
#[derive(Clone, Copy, Debug, PartialEq, Eq, Structural)]
pub enum Size {
    Small,
    Normal,
    Medium,
    Large,
}

impl ModifierClass for Size {
    open spec fn class(&self) -> Seq<char> {
        match self {
            Size::Small => "is-small"@,
            Size::Normal => "is-normal"@,
            Size::Medium => "is-medium"@,
            Size::Large => "is-large"@,
        }
    }

    fn class_text(&self) -> (r: String) {
        match self {
            Size::Small => "is-small".to_owned(),
            Size::Normal => "is-normal".to_owned(),
            Size::Medium => "is-medium".to_owned(),
            Size::Large => "is-large".to_owned(),
        }
    }
}

/// The three common alignments of a component within its parent.
#[derive(Clone, Copy, Debug, PartialEq, Eq, Structural)]
pub enum Alignment {
    Left,
    Centered,
    Right,
}

impl ModifierClass for Alignment {
    open spec fn class(&self) -> Seq<char> {
        match self {
            Alignment::Left => "is-left"@,
            Alignment::Centered => "is-centered"@,
            Alignment::Right => "is-right"@,
        }
    }

    fn class_text(&self) -> (r: String) {
        match self {
            Alignment::Left => "is-left".to_owned(),
            Alignment::Centered => "is-centered".to_owned(),
            Alignment::Right => "is-right".to_owned(),
        }
    }
}

} // verus!
