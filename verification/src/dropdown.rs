//! The navbar dropdown widget itself: its properties, its one-boolean
//! visibility state, the messages and pointer events that drive it, and the
//! rendering of its markup.

use vstd::prelude::*;

verus! {

use crate::markup::Element;
use crate::markup::Markup;
use crate::markup::MarkupView;
use crate::markup::class_views;
use crate::markup::lemma_markup_views_index;
use crate::markup::markup_clone;
use crate::markup::markup_eq;
use crate::markup::markup_view;
use crate::markup::markup_views;
use crate::markup::markups_clone;
use crate::markup::markups_eq;

/// Mathematical model of the dropdown's properties.
#[verifier::ext_equal]
pub struct PropsView {
    pub main_content: MarkupView,
    pub class_name: Seq<char>,
    pub active: bool,
    pub id: Seq<char>,
    pub children: Seq<MarkupView>,
}

/// The dropdown's properties: the clickable header markup, optional styling
/// hooks, and the child items revealed while the dropdown is shown.
pub struct Props {
    /// Clickable content that opens the dropdown.
    pub main_content: Markup,
    /// Custom class added to the container element.
    pub class_name: String,
    /// Styles the dropdown as the currently active one.
    pub active: bool,
    /// Custom id of the container element.
    pub id: String,
    /// The items shown while the dropdown is open.
    pub children: Vec<Markup>,
}

impl View for Props {
    type V = PropsView;

    open spec fn view(&self) -> PropsView {
        PropsView {
            main_content: markup_view(self.main_content),
            class_name: self.class_name@,
            active: self.active,
            id: self.id@,
            children: markup_views(self.children@),
        }
    }
}

/// Messages that drive the visibility state.
pub enum Msg {
    ShowDropdown,
    HideDropdown,
}

/// Pointer events the rendered container reacts to.
pub enum Event {
    MouseOver,
    MouseLeave,
    Click,
}

/// Mathematical model of the dropdown's whole state.
#[verifier::ext_equal]
pub struct StateView {
    pub props: PropsView,
    pub show: bool,
}

/// The dropdown widget: its properties plus the visibility flag.
pub struct NavbarDropdown {
    pub props: Props,
    pub show: bool,
}

/// The model of a dropdown value.
pub open spec fn state_view(d: NavbarDropdown) -> StateView {
    StateView { props: d.props@, show: d.show }
}

/// The state a dropdown is created in: the given properties, hidden.
pub open spec fn spec_create(props: PropsView) -> StateView {
    StateView { props, show: false }
}

/// How a message changes the state: shown on `ShowDropdown`, hidden on
/// `HideDropdown`; the properties are untouched.
pub open spec fn spec_update(s: StateView, msg: Msg) -> StateView {
    match msg {
        Msg::ShowDropdown => StateView { props: s.props, show: true },
        Msg::HideDropdown => StateView { props: s.props, show: false },
    }
}

/// How new properties change the state: they replace the old ones, and the
/// visibility flag is untouched.
pub open spec fn spec_change(s: StateView, props: PropsView) -> StateView {
    StateView { props, show: s.show }
}

/// The message each pointer event is wired to: hover-enter shows the
/// dropdown, hover-leave and click hide it.
pub open spec fn spec_msg_for(e: Event) -> Msg {
    match e {
        Event::MouseOver => Msg::ShowDropdown,
        Event::MouseLeave => Msg::HideDropdown,
        Event::Click => Msg::HideDropdown,
    }
}

/// The item list as rendered: the children inside a `ul` while the dropdown
/// is shown, nothing otherwise.
pub open spec fn spec_items(show: bool, children: Seq<MarkupView>) -> MarkupView {
    if show {
        MarkupView::Element {
            tag: "ul"@,
            id: Seq::empty(),
            classes: Seq::empty(),
            children,
        }
    } else {
        MarkupView::Empty
    }
}

/// The class the `active` flag contributes to the container.
pub open spec fn spec_active_class(active: bool) -> Seq<char> {
    if active {
        "active"@
    } else {
        ""@
    }
}

/// The classes of the container element.
pub open spec fn spec_container_classes(p: PropsView) -> Seq<Seq<char>> {
    seq!["navbar-dropdown"@, spec_active_class(p.active), p.class_name]
}

/// The header wrapper as rendered: the main content inside a
/// `main-content` div.
pub open spec fn spec_header(p: PropsView) -> MarkupView {
    MarkupView::Element {
        tag: "div"@,
        id: Seq::empty(),
        classes: seq!["main-content"@],
        children: seq![p.main_content],
    }
}

/// The whole rendered markup: a container div holding the header wrapper
/// and the item list.
pub open spec fn spec_render(s: StateView) -> MarkupView {
    MarkupView::Element {
        tag: "div"@,
        id: s.props.id,
        classes: spec_container_classes(s.props),
        children: seq![spec_header(s.props), spec_items(s.show, s.props.children)],
    }
}

/// The item-list slot of a rendered container.
pub open spec fn rendered_items(r: MarkupView) -> MarkupView
    recommends
        r is Element,
{
    r->children[1]
}

/// The header markup inside a rendered container.
pub open spec fn rendered_header(r: MarkupView) -> MarkupView
    recommends
        r is Element,
{
    r->children[0]->children[0]
}

/// Decides whether two property sets read the same, model for model.
pub fn props_eq(a: &Props, b: &Props) -> (r: bool)
    ensures
        r == (a@ == b@),
{
    let same = markup_eq(&a.main_content, &b.main_content) && a.class_name == b.class_name
        && a.active == b.active && a.id == b.id && markups_eq(&a.children, &b.children);
    proof {
        if same {
            assert(a@ =~= b@);
        }
    }
    same
}

/// The message a pointer event on the container is wired to.
pub fn msg_for(e: Event) -> (m: Msg)
    ensures
        m == spec_msg_for(e),
{
    match e {
        Event::MouseOver => Msg::ShowDropdown,
        Event::MouseLeave => Msg::HideDropdown,
        Event::Click => Msg::HideDropdown,
    }
}

/// Builds the item list markup: the children inside a `ul` while shown,
/// nothing otherwise.
pub fn get_items(show: bool, children: Vec<Markup>) -> (r: Markup)
    ensures
        r@ == spec_items(show, markup_views(children@)),
{
    if show {
        let r = Markup::Element(Element {
            tag: String::from_str("ul"),
            id: String::new(),
            classes: Vec::new(),
            children,
        });
        proof {
            assert(class_views(Seq::<String>::empty()) =~= Seq::<Seq<char>>::empty());
            assert(r@ =~= spec_items(true, markup_views(children@)));
        }
        r
    } else {
        Markup::Empty
    }
}

impl NavbarDropdown {
    /// Creates the dropdown hidden, holding the given properties.
    pub fn create(props: Props) -> (r: Self)
        ensures
            state_view(r) == spec_create(props@),
    {
        let r = NavbarDropdown { props, show: false };
        proof {
            assert(state_view(r) =~= spec_create(r.props@));
        }
        r
    }

    /// Applies a message to the visibility state; a re-render is always due.
    pub fn update(&mut self, msg: Msg) -> (render: bool)
        ensures
            state_view(*final(self)) == spec_update(state_view(*old(self)), msg),
            render,
    {
        match msg {
            Msg::ShowDropdown => {
                self.show = true;
            },
            Msg::HideDropdown => {
                self.show = false;
            },
        }
        proof {
            assert(state_view(*self) =~= spec_update(state_view(*old(self)), msg));
        }
        true
    }

    /// Takes new properties in; a re-render is due exactly when they differ
    /// from the old ones. The visibility state is untouched either way.
    pub fn change(&mut self, props: Props) -> (render: bool)
        ensures
            state_view(*final(self)) == spec_change(state_view(*old(self)), props@),
            render == (state_view(*old(self)).props != props@),
    {
        let differ = !props_eq(&self.props, &props);
        if differ {
            self.props = props;
        }
        proof {
            assert(state_view(*self) =~= spec_change(state_view(*old(self)), props@));
        }
        differ
    }

    /// Renders the dropdown: a container div carrying the styling classes
    /// and id, the header wrapped in a `main-content` div, and the item
    /// list, present exactly while the dropdown is shown.
    pub fn view(&self) -> (r: Markup)
        ensures
            r@ == spec_render(state_view(*self)),
    {
        let mut classes: Vec<String> = Vec::new();
        classes.push(String::from_str("navbar-dropdown"));
        if self.props.active {
            classes.push(String::from_str("active"));
        } else {
            classes.push(String::from_str(""));
        }
        classes.push(self.props.class_name.clone());
        proof {
            assert(class_views(classes@) =~= spec_container_classes(self.props@));
        }

        let mut header_classes: Vec<String> = Vec::new();
        header_classes.push(String::from_str("main-content"));
        let mut header_children: Vec<Markup> = Vec::new();
        header_children.push(markup_clone(&self.props.main_content));
        let header = Markup::Element(Element {
            tag: String::from_str("div"),
            id: String::new(),
            classes: header_classes,
            children: header_children,
        });
        proof {
            lemma_markup_views_index(header_children@);
            assert(markup_views(header_children@) =~= seq![self.props@.main_content]);
            assert(class_views(header_classes@) =~= seq!["main-content"@]);
            assert(header@ =~= spec_header(self.props@));
        }

        let items = get_items(self.show, markups_clone(&self.props.children));

        let mut children: Vec<Markup> = Vec::new();
        children.push(header);
        children.push(items);
        let r = Markup::Element(Element {
            tag: String::from_str("div"),
            id: self.props.id.clone(),
            classes,
            children,
        });
        proof {
            lemma_markup_views_index(children@);
            assert(markup_views(children@) =~= seq![
                spec_header(self.props@),
                spec_items(self.show, self.props@.children),
            ]);
            assert(r@ =~= spec_render(state_view(*self)));
        }
        r
    }
}

/// Law: a freshly created dropdown renders no child items.
pub proof fn lemma_initially_hidden(props: PropsView)
    ensures
        rendered_items(spec_render(spec_create(props))) is Empty,
{
}

/// Law: the item list is rendered exactly while the dropdown is shown, and
/// while shown it is a `ul` holding exactly the children.
pub proof fn lemma_items_rendered_iff_shown(s: StateView)
    ensures
        !(rendered_items(spec_render(s)) is Empty) <==> s.show,
        s.show ==> rendered_items(spec_render(s)) == spec_items(true, s.props.children),
{
}

/// Law: after a hover-enter event the child items are rendered.
pub proof fn lemma_hover_enter_shows(s: StateView)
    ensures
        spec_update(s, spec_msg_for(Event::MouseOver)).show,
        rendered_items(spec_render(spec_update(s, spec_msg_for(Event::MouseOver)))) == spec_items(
            true,
            s.props.children,
        ),
{
}

/// Law: a hover-leave or click event that follows a hover-enter hides the
/// child items again.
pub proof fn lemma_leave_or_click_hides(s: StateView, e: Event)
    requires
        e is MouseLeave || e is Click,
    ensures
        rendered_items(
            spec_render(spec_update(spec_update(s, spec_msg_for(Event::MouseOver)), spec_msg_for(e))),
        ) is Empty,
{
}

/// Law: changing the properties updates the rendered header to the new main
/// content and leaves the visibility state as it was.
pub proof fn lemma_change_updates_header(s: StateView, props: PropsView)
    ensures
        spec_change(s, props).show == s.show,
        rendered_header(spec_render(spec_change(s, props))) == props.main_content,
        rendered_items(spec_render(spec_change(s, props))) is Empty <==> rendered_items(
            spec_render(s),
        ) is Empty,
{
}

} // verus!
