//! The fixed class vocabulary of the enumerated options, and the attribute
//! text formulas: decimal row counts and comma-joined selection values.

use ybc::{
    Alignment, Block, BlockProps, BreadcrumbSeparator, ButtonInputReset, ButtonInputResetProps,
    ButtonInputSubmit, ButtonInputSubmitProps, CardContent, CardContentProps, CardFooter,
    CardFooterProps, CardHeader, CardHeaderProps, CardImage, CardImageProps, Footer, FooterProps,
    HeaderSize, HeroSize, ImageSize, LevelItem, LevelItemProps, LevelLeft, LevelLeftProps,
    LevelRight, LevelRightProps, MediaContent, MediaContentProps, MediaLeft, MediaLeftProps,
    MediaRight, MediaRightProps, Menu, MenuList, MenuListProps, MenuProps, Message, MessageBody,
    MessageBodyProps, MessageHeader, MessageHeaderProps, MessageProps, ModifierClass, Node,
    Notification, NotificationProps, PanelTabs, PanelTabsProps, Render, RenderHandler, Size,
    TextArea, TextAreaProps,
};

fn s(v: &str) -> String {
    v.to_string()
}

fn classes_of(n: &Node) -> Vec<String> {
    match n {
        Node::Element { classes, .. } => classes.clone(),
        Node::Text(_) => panic!("expected an element"),
    }
}

fn tag_of(n: &Node) -> String {
    match n {
        Node::Element { tag, .. } => tag.clone(),
        Node::Text(_) => panic!("expected an element"),
    }
}

fn attrs_of(n: &Node) -> Vec<(String, String)> {
    match n {
        Node::Element { attrs, .. } => {
            attrs.iter().map(|a| (a.name.clone(), a.value.clone())).collect()
        },
        Node::Text(_) => panic!("expected an element"),
    }
}

#[test]
fn size_and_alignment_class_strings() {
    assert_eq!(Size::Small.class_text(), s("is-small"));
    assert_eq!(Size::Normal.class_text(), s("is-normal"));
    assert_eq!(Size::Medium.class_text(), s("is-medium"));
    assert_eq!(Size::Large.class_text(), s("is-large"));
    assert_eq!(Alignment::Left.class_text(), s("is-left"));
    assert_eq!(Alignment::Centered.class_text(), s("is-centered"));
    assert_eq!(Alignment::Right.class_text(), s("is-right"));
}

#[test]
fn enumerated_option_class_strings() {
    assert_eq!(BreadcrumbSeparator::Bullet.class_text(), s("has-bullet-separator"));
    assert_eq!(BreadcrumbSeparator::Dot.class_text(), s("has-dot-separator"));
    assert_eq!(BreadcrumbSeparator::Succeeds.class_text(), s("has-succeeds-separator"));
    assert_eq!(HeaderSize::Is6.class_text(), s("is-6"));
    assert_eq!(HeroSize::FullheightWithNavbar.class_text(), s("is-fullheight-with-navbar"));
    assert_eq!(ImageSize::Is128x128.class_text(), s("is-128x128"));
    assert_eq!(ImageSize::Is16by9.class_text(), s("is-16by9"));
    assert_eq!(ImageSize::IsSquare.class_text(), s("is-Square"));
}

#[test]
fn decimal_row_text_has_no_surprises() {
    let make = |rows: u32| TextArea {
        props: TextAreaProps {
            name: s("n"),
            value: s(""),
            classes: None,
            placeholder: s(""),
            rows,
            size: None,
            fixed_size: false,
            loading: false,
            disabled: false,
            readonly: false,
            is_static: false,
        },
    };
    assert!(attrs_of(&make(0).view()).contains(&(s("rows"), s("0"))));
    assert!(attrs_of(&make(7).view()).contains(&(s("rows"), s("7"))));
    assert!(attrs_of(&make(105).view()).contains(&(s("rows"), s("105"))));
    assert!(attrs_of(&make(4294967295).view()).contains(&(s("rows"), s("4294967295"))));
}

#[test]
fn joined_selection_value_edges() {
    let make = |value: Vec<String>| ybc::MultiSelect {
        props: ybc::MultiSelectProps {
            name: s("m"),
            value,
            children: vec![],
            classes: None,
            size: None,
            list_size: 1,
            loading: false,
            disabled: false,
        },
    };
    let attr_value = |value: Vec<String>| {
        let r = make(value).view();
        let inner = match &r {
            Node::Element { children, .. } => &children[0],
            Node::Text(_) => panic!("expected an element"),
        };
        attrs_of(inner)
            .into_iter()
            .find(|(n, _)| n == "value")
            .expect("the select carries a value attribute")
            .1
    };
    assert_eq!(attr_value(vec![]), s(""));
    assert_eq!(attr_value(vec![s("only")]), s("only"));
    assert_eq!(attr_value(vec![s("a"), s("b"), s("c")]), s("a,b,c"));
}

#[test]
fn remaining_wrappers_carry_their_base_class() {
    let r = Menu { props: MenuProps { children: vec![], classes: None } }.view();
    assert_eq!((tag_of(&r), classes_of(&r)), (s("aside"), vec![s("menu")]));
    let r = MenuList { props: MenuListProps { children: vec![], classes: None } }.view();
    assert_eq!((tag_of(&r), classes_of(&r)), (s("ul"), vec![s("menu-list")]));
    let r = Message { props: MessageProps { children: vec![], classes: None } }.view();
    assert_eq!((tag_of(&r), classes_of(&r)), (s("article"), vec![s("message")]));
    let r = MessageHeader { props: MessageHeaderProps { children: vec![], classes: None } }.view();
    assert_eq!((tag_of(&r), classes_of(&r)), (s("div"), vec![s("message-header")]));
    let r = MessageBody { props: MessageBodyProps { children: vec![], classes: None } }.view();
    assert_eq!((tag_of(&r), classes_of(&r)), (s("div"), vec![s("message-body")]));
    let r = Notification { props: NotificationProps { children: vec![], classes: None } }.view();
    assert_eq!((tag_of(&r), classes_of(&r)), (s("div"), vec![s("notification")]));
    let r = Footer { props: FooterProps { children: vec![], classes: None } }.view();
    assert_eq!((tag_of(&r), classes_of(&r)), (s("footer"), vec![s("footer")]));
    let r = Block { props: BlockProps { children: vec![], classes: None } }.view();
    assert_eq!((tag_of(&r), classes_of(&r)), (s("div"), vec![s("block")]));
    let r = PanelTabs { props: PanelTabsProps { children: vec![] } }.view();
    assert_eq!((tag_of(&r), classes_of(&r)), (s("p"), vec![s("panel-tabs")]));
    let r = LevelItem {
        props: LevelItemProps { children: vec![], classes: None, tag: s("div") },
    }
        .view();
    assert_eq!((tag_of(&r), classes_of(&r)), (s("div"), vec![s("level-item")]));
    let r = MediaContent {
        props: MediaContentProps { children: vec![], classes: None, tag: s("div") },
    }
        .view();
    assert_eq!((tag_of(&r), classes_of(&r)), (s("div"), vec![s("media-content")]));
    let r = MediaLeft { props: MediaLeftProps { children: vec![], classes: None, tag: s("div") } }
        .view();
    assert_eq!(classes_of(&r), vec![s("media-left")]);
    let r = MediaRight {
        props: MediaRightProps { children: vec![], classes: None, tag: s("aside") },
    }
        .view();
    assert_eq!((tag_of(&r), classes_of(&r)), (s("aside"), vec![s("media-right")]));
    let r = LevelLeft { props: LevelLeftProps { children: vec![], classes: None, tag: s("div") } }
        .view();
    assert_eq!(classes_of(&r), vec![s("level-left")]);
    let r = LevelRight {
        props: LevelRightProps { children: vec![], classes: None, tag: s("div") },
    }
        .view();
    assert_eq!(classes_of(&r), vec![s("level-right")]);
}

#[test]
fn card_sections_carry_their_base_classes() {
    let r = CardHeader { props: CardHeaderProps { children: vec![], classes: None } }.view();
    assert_eq!((tag_of(&r), classes_of(&r)), (s("header"), vec![s("card-header")]));
    let r = CardImage { props: CardImageProps { children: vec![], classes: None } }.view();
    assert_eq!((tag_of(&r), classes_of(&r)), (s("div"), vec![s("card-image")]));
    let r = CardContent { props: CardContentProps { children: vec![], classes: None } }.view();
    assert_eq!((tag_of(&r), classes_of(&r)), (s("div"), vec![s("card-content")]));
    let r = CardFooter { props: CardFooterProps { children: vec![], classes: None } }.view();
    assert_eq!((tag_of(&r), classes_of(&r)), (s("footer"), vec![s("card-footer")]));
}

#[test]
fn submit_and_reset_inputs_are_typed_buttons() {
    let r = ButtonInputSubmit {
        props: ButtonInputSubmitProps {
            classes: None,
            onsubmit: s("submit-handler"),
            loading: false,
            is_static: false,
            disabled: false,
        },
    }
        .view();
    assert_eq!(tag_of(&r.node), s("input"));
    assert_eq!(classes_of(&r.node), vec![s("button")]);
    assert!(attrs_of(&r.node).contains(&(s("type"), s("submit"))));
    assert_eq!(r.handler, s("submit-handler"));
    let r = ButtonInputReset {
        props: ButtonInputResetProps {
            classes: None,
            onreset: s("reset-handler"),
            loading: true,
            is_static: false,
            disabled: false,
        },
    }
        .view();
    assert_eq!(classes_of(&r.node), vec![s("button"), s("is-loading")]);
    assert!(attrs_of(&r.node).contains(&(s("type"), s("reset"))));
    assert_eq!(r.handler, s("reset-handler"));
}
