//! A navbar dropdown widget: a clickable header that reveals a list of child
//! items on hover-enter and hides it again on hover-leave or click.
//!
//! The widget's markup is modelled by [`markup::Markup`], a plain tree of
//! elements and text nodes, so that what the widget renders can be stated and
//! proved. A host UI framework adapter can translate that tree into its own
//! node type and feed pointer events back as [`dropdown::Msg`] values.

pub mod dropdown;
pub mod markup;
