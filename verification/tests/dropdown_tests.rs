use navbar_dropdown::dropdown::{msg_for, props_eq, Event, Msg, NavbarDropdown, Props};
use navbar_dropdown::markup::{markup_eq, Element, Markup};

fn text(s: &str) -> Markup {
    Markup::Text(s.to_string())
}

fn div_with_id(id: &str, content: &str) -> Markup {
    Markup::Element(Element {
        tag: "div".to_string(),
        id: id.to_string(),
        classes: Vec::new(),
        children: vec![text(content)],
    })
}

fn sample_props() -> Props {
    Props {
        main_content: div_with_id("test", "test"),
        class_name: "class-test".to_string(),
        active: false,
        id: "id-test".to_string(),
        children: vec![div_with_id("item", "Item")],
    }
}

fn rendered_parts(d: &NavbarDropdown) -> (Element, Markup, Markup) {
    let r = d.view();
    let Markup::Element(container) = r else {
        panic!("the container must be an element");
    };
    assert_eq!(container.children.len(), 2);
    let Markup::Element(header_wrap) = &container.children[0] else {
        panic!("the header wrapper must be an element");
    };
    assert_eq!(header_wrap.tag, "div");
    assert_eq!(header_wrap.classes, vec!["main-content".to_string()]);
    assert_eq!(header_wrap.children.len(), 1);
    let header = header_wrap.children[0].clone();
    let items = container.children[1].clone();
    (container, header, items)
}

#[test]
fn should_create_navbar_dropdown_container() {
    let d = NavbarDropdown::create(sample_props());
    let (container, header, _) = rendered_parts(&d);
    assert_eq!(container.tag, "div");
    assert_eq!(container.id, "id-test");
    assert_eq!(
        container.classes,
        vec![
            "navbar-dropdown".to_string(),
            "".to_string(),
            "class-test".to_string()
        ]
    );
    assert!(markup_eq(&header, &div_with_id("test", "test")));
}

#[test]
fn initially_children_not_rendered() {
    let d = NavbarDropdown::create(sample_props());
    let (_, _, items) = rendered_parts(&d);
    assert!(matches!(items, Markup::Empty));
}

#[test]
fn hover_enter_renders_children() {
    let mut d = NavbarDropdown::create(sample_props());
    let render = d.update(msg_for(Event::MouseOver));
    assert!(render);
    let (_, _, items) = rendered_parts(&d);
    let Markup::Element(list) = items else {
        panic!("the item list must be rendered after hover-enter");
    };
    assert_eq!(list.tag, "ul");
    assert_eq!(list.children.len(), 1);
    assert!(markup_eq(&list.children[0], &div_with_id("item", "Item")));
}

#[test]
fn hover_leave_hides_children_again() {
    let mut d = NavbarDropdown::create(sample_props());
    d.update(msg_for(Event::MouseOver));
    d.update(msg_for(Event::MouseLeave));
    let (_, _, items) = rendered_parts(&d);
    assert!(matches!(items, Markup::Empty));
}

#[test]
fn click_hides_children_again() {
    let mut d = NavbarDropdown::create(sample_props());
    d.update(msg_for(Event::MouseOver));
    d.update(msg_for(Event::Click));
    let (_, _, items) = rendered_parts(&d);
    assert!(matches!(items, Markup::Empty));
}

#[test]
fn update_always_requests_render() {
    let mut d = NavbarDropdown::create(sample_props());
    assert!(d.update(Msg::ShowDropdown));
    assert!(d.update(Msg::ShowDropdown));
    assert!(d.update(Msg::HideDropdown));
    assert!(d.update(Msg::HideDropdown));
}

#[test]
fn change_updates_header_without_altering_visibility() {
    let mut d = NavbarDropdown::create(sample_props());
    d.update(msg_for(Event::MouseOver));

    let mut new_props = sample_props();
    new_props.main_content = text("menu");
    let render = d.change(new_props);
    assert!(render);

    let (_, header, items) = rendered_parts(&d);
    assert!(markup_eq(&header, &text("menu")));
    assert!(matches!(items, Markup::Element(_)));

    let mut hidden = NavbarDropdown::create(sample_props());
    let mut other = sample_props();
    other.main_content = text("menu");
    assert!(hidden.change(other));
    let (_, header2, items2) = rendered_parts(&hidden);
    assert!(markup_eq(&header2, &text("menu")));
    assert!(matches!(items2, Markup::Empty));
}

#[test]
fn change_with_equal_props_requests_no_render() {
    let mut d = NavbarDropdown::create(sample_props());
    let render = d.change(sample_props());
    assert!(!render);
    let (container, _, _) = rendered_parts(&d);
    assert_eq!(container.id, "id-test");
}

#[test]
fn change_replaces_every_property() {
    let mut d = NavbarDropdown::create(sample_props());
    let new_props = Props {
        main_content: text("other"),
        class_name: "other-class".to_string(),
        active: true,
        id: "other-id".to_string(),
        children: vec![text("a"), text("b")],
    };
    assert!(d.change(new_props));
    let (container, _, _) = rendered_parts(&d);
    assert_eq!(container.id, "other-id");
    assert_eq!(
        container.classes,
        vec![
            "navbar-dropdown".to_string(),
            "active".to_string(),
            "other-class".to_string()
        ]
    );
}

#[test]
fn active_flag_only_changes_classes() {
    let mut props = sample_props();
    props.active = true;
    let d = NavbarDropdown::create(props);
    let (container, _, items) = rendered_parts(&d);
    assert_eq!(
        container.classes,
        vec![
            "navbar-dropdown".to_string(),
            "active".to_string(),
            "class-test".to_string()
        ]
    );
    assert!(matches!(items, Markup::Empty));
}

#[test]
fn props_eq_detects_each_field() {
    let base = sample_props();
    assert!(props_eq(&base, &sample_props()));

    let mut p = sample_props();
    p.main_content = text("x");
    assert!(!props_eq(&base, &p));

    let mut p = sample_props();
    p.class_name = "x".to_string();
    assert!(!props_eq(&base, &p));

    let mut p = sample_props();
    p.active = true;
    assert!(!props_eq(&base, &p));

    let mut p = sample_props();
    p.id = "x".to_string();
    assert!(!props_eq(&base, &p));

    let mut p = sample_props();
    p.children.push(text("extra"));
    assert!(!props_eq(&base, &p));
}

#[test]
fn msg_wiring_matches_events() {
    assert!(matches!(msg_for(Event::MouseOver), Msg::ShowDropdown));
    assert!(matches!(msg_for(Event::MouseLeave), Msg::HideDropdown));
    assert!(matches!(msg_for(Event::Click), Msg::HideDropdown));
}

#[test]
fn empty_children_still_render_a_list_when_shown() {
    let mut props = sample_props();
    props.children = Vec::new();
    let mut d = NavbarDropdown::create(props);
    d.update(msg_for(Event::MouseOver));
    let (_, _, items) = rendered_parts(&d);
    let Markup::Element(list) = items else {
        panic!("an empty item list is still rendered as a ul");
    };
    assert_eq!(list.tag, "ul");
    assert_eq!(list.children.len(), 0);
}
