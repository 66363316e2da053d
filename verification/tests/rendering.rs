//! The presentational wrappers: class composition, fixed shapes, tag
//! overrides and render idempotence, checked on concrete configurations.

use ybc::{
    Alignment, Block, BlockProps, Breadcrumb, BreadcrumbProps, BreadcrumbSeparator,
    BreadcrumbSize, Button, ButtonAnchor, ButtonAnchorProps, ButtonProps, ButtonRouter,
    ButtonRouterProps, Buttons, ButtonsProps, Card, CardProps, Column, ColumnProps, Columns,
    ColumnsProps, Container, ContainerProps, Content, ContentProps, Delete, DeleteProps, Hero,
    HeroProps, HeroSize, Icon, IconProps, Image, ImageProps, ImageSize, Level, LevelProps, Media,
    MediaProps, MenuLabel, MenuLabelProps, Node, Panel, PanelBlock, PanelBlockProps, PanelProps,
    Progress, ProgressProps, Render, RenderHandler, Size, Subtitle, SubtitleProps, Table,
    TableProps, Tabs,
    TabsProps, Tag, TagProps, Tags, TagsProps, Title, TitleProps,
};

fn node_eq(a: &Node, b: &Node) -> bool {
    match (a, b) {
        (Node::Text(x), Node::Text(y)) => x == y,
        (
            Node::Element { tag: t1, attrs: a1, classes: c1, children: k1 },
            Node::Element { tag: t2, attrs: a2, classes: c2, children: k2 },
        ) => {
            t1 == t2 && c1 == c2 && a1.len() == a2.len() && k1.len() == k2.len()
                && a1
                    .iter()
                    .zip(a2.iter())
                    .all(|(x, y)| x.name == y.name && x.value == y.value)
                && k1.iter().zip(k2.iter()).all(|(x, y)| node_eq(x, y))
        },
        _ => false,
    }
}

fn classes_of(n: &Node) -> Vec<String> {
    match n {
        Node::Element { classes, .. } => classes.clone(),
        Node::Text(_) => panic!("expected an element"),
    }
}

fn tag_of(n: &Node) -> String {
    match n {
        Node::Element { tag, .. } => tag.clone(),
        Node::Text(_) => panic!("expected an element"),
    }
}

fn children_of(n: &Node) -> &Vec<Node> {
    match n {
        Node::Element { children, .. } => children,
        Node::Text(_) => panic!("expected an element"),
    }
}

fn attrs_of(n: &Node) -> Vec<(String, String)> {
    match n {
        Node::Element { attrs, .. } => {
            attrs.iter().map(|a| (a.name.clone(), a.value.clone())).collect()
        },
        Node::Text(_) => panic!("expected an element"),
    }
}

fn s(v: &str) -> String {
    v.to_string()
}

#[test]
fn tag_composes_base_extension_and_modifiers_in_order() {
    let c = Tag {
        props: TagProps {
            children: vec![Node::Text(s("hi"))],
            classes: Some(vec![s("extra"), s("more")]),
            tag: s("span"),
            onclick: s("handler-token"),
            rounded: true,
            delete: false,
            size: Some(Size::Large),
        },
    };
    let r = c.view();
    assert_eq!(tag_of(&r.node), s("span"));
    assert_eq!(
        classes_of(&r.node),
        vec![s("tag"), s("extra"), s("more"), s("is-rounded"), s("is-large")]
    );
    let base_count = classes_of(&r.node).iter().filter(|x| *x == "tag").count();
    assert_eq!(base_count, 1);
    // the click handler comes back untouched, for the host to attach
    assert_eq!(r.handler, s("handler-token"));
}

#[test]
fn tag_omits_unset_modifiers_entirely() {
    let c = Tag {
        props: TagProps {
            children: vec![],
            classes: None,
            tag: s("span"),
            onclick: 0u32,
            rounded: false,
            delete: false,
            size: None,
        },
    };
    assert_eq!(classes_of(&c.view().node), vec![s("tag")]);
}

#[test]
fn tags_group_with_addons() {
    let c = Tags {
        props: TagsProps { children: vec![], classes: None, has_addons: true },
    };
    assert_eq!(classes_of(&c.view()), vec![s("tags"), s("has-addons")]);
}

#[test]
fn rendering_twice_gives_identical_output() {
    let make = || Tag {
        props: TagProps {
            children: vec![Node::Text(s("x"))],
            classes: Some(vec![s("extra")]),
            tag: s("span"),
            onclick: 7u32,
            rounded: true,
            delete: true,
            size: Some(Size::Small),
        },
    };
    let first = make().view();
    let second = make().view();
    assert!(node_eq(&first.node, &second.node));
    assert_eq!(first.handler, second.handler);
    let h = Hero {
        props: HeroProps {
            classes: None,
            head: Some(Node::Text(s("head"))),
            head_classes: None,
            body: Node::Text(s("body")),
            body_classes: Some(vec![s("b")]),
            foot: None,
            foot_classes: None,
            fixed_nav: false,
            bold: true,
            size: Some(HeroSize::Medium),
        },
    };
    assert!(node_eq(&h.view(), &h.view()));
}

#[test]
fn table_with_all_flags_lists_each_modifier_once() {
    let t = Table {
        props: TableProps {
            children: vec![],
            classes: None,
            bordered: true,
            striped: true,
            narrow: true,
            hoverable: true,
            fullwidth: true,
            scrollable: false,
        },
    };
    assert_eq!(
        classes_of(&t.view()),
        vec![
            s("table"),
            s("is-bordered"),
            s("is-striped"),
            s("is-narrow"),
            s("is-hoverable"),
            s("is-fullwidth"),
        ]
    );
}

#[test]
fn scrollable_table_gets_exactly_one_container() {
    let make = |scrollable: bool| TableProps {
        children: vec![Node::Text(s("cells"))],
        classes: None,
        bordered: false,
        striped: false,
        narrow: false,
        hoverable: false,
        fullwidth: false,
        scrollable,
    };
    let wrapped = Table { props: make(true) }.view();
    assert_eq!(tag_of(&wrapped), s("div"));
    assert_eq!(classes_of(&wrapped), vec![s("table-container")]);
    assert_eq!(children_of(&wrapped).len(), 1);
    assert_eq!(tag_of(&children_of(&wrapped)[0]), s("table"));

    let bare = Table { props: make(false) }.view();
    assert_eq!(tag_of(&bare), s("table"));
}

#[test]
fn breadcrumb_wraps_children_in_a_list() {
    let b = Breadcrumb {
        props: BreadcrumbProps {
            children: vec![Node::Text(s("a"))],
            classes: None,
            size: Some(BreadcrumbSize::Small),
            alignment: Some(Alignment::Centered),
            separator: Some(BreadcrumbSeparator::Arrow),
        },
    };
    let r = b.view();
    assert_eq!(tag_of(&r), s("nav"));
    assert_eq!(attrs_of(&r), vec![(s("aria-label"), s("breadcrumbs"))]);
    assert_eq!(
        classes_of(&r),
        vec![s("breadcrumb"), s("are-small"), s("is-centered"), s("has-arrow-separator")]
    );
    assert_eq!(children_of(&r).len(), 1);
    assert_eq!(tag_of(&children_of(&r)[0]), s("ul"));
    assert_eq!(children_of(&children_of(&r)[0]).len(), 1);
}

#[test]
fn tabs_render_composed_classes_on_the_root() {
    let t = Tabs {
        props: TabsProps {
            children: vec![],
            classes: Some(vec![s("x")]),
            alignment: None,
            size: None,
            boxed: true,
            toggle: false,
            rounded: false,
            fullwidth: true,
        },
    };
    let r = t.view();
    assert_eq!(classes_of(&r), vec![s("tabs"), s("x"), s("is-boxed"), s("is-fullwidth")]);
    assert_eq!(tag_of(&children_of(&r)[0]), s("ul"));
}

#[test]
fn panel_prepends_its_heading() {
    let p = Panel {
        props: PanelProps {
            children: vec![Node::Text(s("row"))],
            classes: None,
            heading: Node::Text(s("head")),
        },
    };
    let r = p.view();
    assert_eq!(tag_of(&r), s("nav"));
    assert_eq!(classes_of(&r), vec![s("panel")]);
    let kids = children_of(&r);
    assert_eq!(kids.len(), 2);
    assert_eq!(tag_of(&kids[0]), s("p"));
    assert_eq!(classes_of(&kids[0]), vec![s("panel-heading")]);
    assert!(node_eq(&kids[1], &Node::Text(s("row"))));
}

#[test]
fn panel_block_takes_the_active_modifier() {
    let p = PanelBlock {
        props: PanelBlockProps { children: vec![], tag: s("a"), active: true, onclick: 3u32 },
    };
    let r = p.view();
    assert_eq!(tag_of(&r.node), s("a"));
    assert_eq!(classes_of(&r.node), vec![s("panel-block"), s("is-active")]);
    assert_eq!(r.handler, 3u32);
}

#[test]
fn simple_wrappers_carry_their_base_class() {
    let r = Block { props: BlockProps { children: vec![], classes: None } }.view();
    assert_eq!((tag_of(&r), classes_of(&r)), (s("div"), vec![s("block")]));
    let r = Card { props: CardProps { children: vec![], classes: Some(vec![s("c")]) } }.view();
    assert_eq!((tag_of(&r), classes_of(&r)), (s("div"), vec![s("card"), s("c")]));
    let r = Columns {
        props: ColumnsProps {
            children: vec![],
            classes: None,
            vcentered: true,
            multiline: false,
            centered: true,
        },
    }
        .view();
    assert_eq!(classes_of(&r), vec![s("columns"), s("is-vcentered"), s("is-centered")]);
    let r = Column { props: ColumnProps { children: vec![], classes: None } }.view();
    assert_eq!(classes_of(&r), vec![s("column")]);
    let r = Container {
        props: ContainerProps { children: vec![], classes: None, fluid: true },
    }
        .view();
    assert_eq!(classes_of(&r), vec![s("container"), s("is-fluid")]);
}

#[test]
fn icon_and_image_take_enumerated_modifiers() {
    let r = Icon {
        props: IconProps {
            children: vec![],
            classes: None,
            onclick: 1u32,
            size: Some(Size::Small),
            alignment: Some(Alignment::Left),
        },
    }
        .view();
    assert_eq!(
        (tag_of(&r.node), classes_of(&r.node)),
        (s("span"), vec![s("icon"), s("is-small"), s("is-left")])
    );
    assert_eq!(r.handler, 1u32);
    let r = Image {
        props: ImageProps { children: vec![], classes: None, size: Some(ImageSize::Is3by2) },
    }
        .view();
    assert_eq!((tag_of(&r), classes_of(&r)), (s("figure"), vec![s("image"), s("is-3by2")]));
}

#[test]
fn menu_label_renders_its_text() {
    let r = MenuLabel {
        props: MenuLabelProps { classes: None, text: s("General") },
    }
        .view();
    assert_eq!(tag_of(&r), s("p"));
    assert_eq!(classes_of(&r), vec![s("menu-label")]);
    assert!(node_eq(&children_of(&r)[0], &Node::Text(s("General"))));
}

#[test]
fn buttons_carry_attributes_and_modifiers() {
    let r = Button {
        props: ButtonProps {
            children: vec![Node::Text(s("Go"))],
            classes: None,
            onclick: s("click-me"),
            loading: true,
            is_static: false,
            disabled: true,
        },
    }
        .view();
    assert_eq!(tag_of(&r.node), s("button"));
    assert_eq!(classes_of(&r.node), vec![s("button"), s("is-loading")]);
    assert_eq!(attrs_of(&r.node), vec![(s("disabled"), s("true"))]);
    assert_eq!(r.handler, s("click-me"));

    let r = ButtonAnchor {
        props: ButtonAnchorProps {
            children: vec![],
            classes: None,
            onclick: 9u32,
            loading: false,
            is_static: true,
            href: s("/home"),
            rel: None,
            target: Some(s("_blank")),
            disabled: false,
        },
    }
        .view();
    assert_eq!(tag_of(&r.node), s("a"));
    assert_eq!(classes_of(&r.node), vec![s("button"), s("is-static")]);
    assert_eq!(
        attrs_of(&r.node),
        vec![
            (s("href"), s("/home")),
            (s("rel"), s("")),
            (s("target"), s("_blank")),
            (s("disabled"), s("false")),
        ]
    );
    assert_eq!(r.handler, 9u32);
}

#[test]
fn router_button_adds_the_button_class_only_when_missing() {
    let link = ButtonRouter {
        props: ButtonRouterProps {
            route: 7u32,
            children: vec![],
            classes: Some(vec![s("extra")]),
            loading: true,
            is_static: false,
            disabled: false,
        },
    }
        .view();
    assert_eq!(link.route, 7u32);
    assert_eq!(link.classes, vec![s("extra"), s("button"), s("is-loading")]);

    let link = ButtonRouter {
        props: ButtonRouterProps {
            route: 8u32,
            children: vec![],
            classes: Some(vec![s("button")]),
            loading: false,
            is_static: false,
            disabled: true,
        },
    }
        .view();
    assert_eq!(link.classes, vec![s("button")]);
    assert!(link.disabled);
}

#[test]
fn buttons_group_size_class() {
    let r = Buttons {
        props: ButtonsProps {
            children: vec![],
            classes: None,
            size: Some(ybc::ButtonGroupSize::Medium),
        },
    }
        .view();
    assert_eq!(classes_of(&r), vec![s("buttons"), s("are-medium")]);
}

#[test]
fn progress_shows_its_value_text() {
    let r = Progress {
        props: ProgressProps { classes: None, max: s("1"), value: s("0.5") },
    }
        .view();
    assert_eq!(tag_of(&r), s("progress"));
    assert_eq!(attrs_of(&r), vec![(s("max"), s("1")), (s("value"), s("0.5"))]);
    assert!(node_eq(&children_of(&r)[0], &Node::Text(s("0.5%"))));
}

#[test]
fn hero_builds_its_sections() {
    let h = Hero {
        props: HeroProps {
            classes: None,
            head: Some(Node::Text(s("h"))),
            head_classes: Some(vec![s("hc")]),
            body: Node::Text(s("b")),
            body_classes: None,
            foot: None,
            foot_classes: None,
            fixed_nav: true,
            bold: false,
            size: Some(HeroSize::Fullheight),
        },
    };
    let r = h.view();
    assert_eq!(tag_of(&r), s("section"));
    assert_eq!(
        classes_of(&r),
        vec![s("hero"), s("is-fullheight-with-navbar"), s("is-fullheight")]
    );
    let kids = children_of(&r);
    assert_eq!(kids.len(), 2);
    assert_eq!(classes_of(&kids[0]), vec![s("hero-head"), s("hc")]);
    assert_eq!(classes_of(&kids[1]), vec![s("hero-body")]);
}

#[test]
fn tag_override_components_take_the_override() {
    let r = Content {
        props: ContentProps { children: vec![], classes: None, tag: s("article") },
    }
        .view();
    assert_eq!(tag_of(&r), s("article"));
    let r = Delete {
        props: DeleteProps { children: vec![], classes: None, tag: s("a"), onclick: 2u32 },
    }
        .view();
    assert_eq!(tag_of(&r.node), s("a"));
    assert_eq!(r.handler, 2u32);
    let r = Title {
        props: TitleProps {
            children: vec![],
            classes: None,
            tag: s("h1"),
            size: Some(ybc::HeaderSize::Is1),
            is_spaced: true,
        },
    }
        .view();
    assert_eq!(tag_of(&r), s("h1"));
    assert_eq!(classes_of(&r), vec![s("title"), s("is-1"), s("is-spaced")]);
    let r = Subtitle {
        props: SubtitleProps { children: vec![], classes: None, tag: s("h4"), size: None },
    }
        .view();
    assert_eq!((tag_of(&r), classes_of(&r)), (s("h4"), vec![s("subtitle")]));
    let r = Level { props: LevelProps { children: vec![], classes: None, tag: s("div") } }.view();
    assert_eq!(tag_of(&r), s("div"));
    let r = Media { props: MediaProps { children: vec![], classes: None, tag: s("section") } }
        .view();
    assert_eq!(tag_of(&r), s("section"));
}

#[test]
fn default_configurations_render_the_bare_component() {
    let r = Table { props: Default::default() }.view();
    assert_eq!((tag_of(&r), classes_of(&r)), (s("table"), vec![s("table")]));
    let r = Progress { props: Default::default() }.view();
    assert_eq!(attrs_of(&r), vec![(s("max"), s("1")), (s("value"), s("0"))]);
    assert!(node_eq(&children_of(&r)[0], &Node::Text(s("0%"))));
    let r = Title { props: Default::default() }.view();
    assert_eq!((tag_of(&r), classes_of(&r)), (s("h3"), vec![s("title")]));
    let r = Level { props: Default::default() }.view();
    assert_eq!(tag_of(&r), s("nav"));
    let r = Content { props: Default::default() }.view();
    assert_eq!((tag_of(&r), classes_of(&r)), (s("div"), vec![s("content")]));
    let r = Hero { props: ybc::HeroProps::new(Node::Text(s("b"))) }.view();
    assert_eq!(tag_of(&r), s("section"));
    assert_eq!(classes_of(&r), vec![s("hero")]);
    assert_eq!(children_of(&r).len(), 1);
}
