//! The decorator: it opens its popup on a right press over its bounds, and
//! produces the popup's overlay when the activation record names it.
use vstd::prelude::*;

use crate::geometry::{over_of, position_over};
use crate::id::{Id, IdView};
use crate::state::{apply, is_owner, open_step, record_view, Request};

verus! {

/// A mouse button, as far as the routing tells them apart.
#[derive(Clone, Copy, Debug, PartialEq, Eq, Structural)]
pub enum MouseButton {
    Left,
    Right,
    Middle,
    Other,
}

/// An input event, as far as the routing tells them apart.
#[derive(Clone, Copy, Debug, PartialEq, Eq, Structural)]
pub enum Input {
    /// A mouse button went down.
    ButtonPressed(MouseButton),
    /// Any other event.
    Other,
}

/// Whether an event opens the popup of a decorator: a right press with the
/// cursor at a known position over the decorator's bounds (`hit`).
pub open spec fn opens(input: Input, hit: Option<iced::Point>) -> bool {
    input == Input::ButtonPressed(MouseButton::Right) && hit is Some
}

/// Whether an event dismisses the open popup: a left or right press with
/// the cursor not inside the popup's bounds.
pub open spec fn dismisses(input: Input, inside: bool) -> bool {
    (input == Input::ButtonPressed(MouseButton::Left) || input == Input::ButtonPressed(
        MouseButton::Right,
    )) && !inside
}

/// What a decorator does with an event.
pub enum Routing {
    /// Emit a request to open the popup of this identifier at this point,
    /// and report the event captured: the primary content does not see it.
    Open(Id, iced::Point),
    /// Hand the event, unchanged, to the primary content.
    Forward,
}

/// What an open popup's overlay does with an event.
#[derive(Clone, Copy, Debug, PartialEq, Eq, Structural)]
pub enum Dismissal {
    /// Emit the close message, and report the event not captured, so that
    /// what lies beneath the popup may act on it too.
    Close,
    /// Hand the event, unchanged, to the popup content.
    Forward,
}

/// The overlay of an open popup, anchored at a screen point; the popup
/// content takes its natural size there, free of the parent's layout.
pub struct Overlay {
    pub anchor: iced::Point,
}

impl Overlay {
    /// Decides what the overlay does with `input`, where `inside` tells
    /// whether the cursor lies inside the popup content's bounds.
    pub fn route(&self, input: Input, inside: bool) -> (r: Dismissal)
        ensures
            r == (if dismisses(input, inside) {
                Dismissal::Close
            } else {
                Dismissal::Forward
            }),
    {
        match input {
            Input::ButtonPressed(MouseButton::Left) | Input::ButtonPressed(MouseButton::Right) => {
                if inside {
                    Dismissal::Forward
                } else {
                    Dismissal::Close
                }
            },
            _ => Dismissal::Forward,
        }
    }

    /// Decides what the overlay does with `input`, given iced's cursor and
    /// the bounds that the popup content was laid out in: [`Overlay::route`],
    /// with `inside` read from the cursor.
    pub fn on_event(&self, input: Input, cursor: iced::mouse::Cursor, content_bounds: iced::Rectangle) -> (r: Dismissal)
        ensures
            r == (if dismisses(input, over_of(cursor, content_bounds) is Some) {
                Dismissal::Close
            } else {
                Dismissal::Forward
            }),
    {
        let hit = position_over(cursor, content_bounds);
        self.route(input, hit.is_some())
    }
}

/// A decorator for one render pass: its own identifier and the snapshot of
/// the activation record that the pass read. The primary content and the
/// popup content it wraps are the host's; only the decisions stand here.
pub struct ContextMenu {
    id: Id,
    active: Option<(Id, iced::Point)>,
}

impl ContextMenu {
    /// The decorator's identifier.
    pub closed spec fn id_view(&self) -> IdView {
        self.id@
    }

    /// The snapshot of the activation record that the decorator was made with.
    pub closed spec fn active_view(&self) -> Option<(IdView, iced::Point)> {
        record_view(self.active)
    }

    /// Creates a decorator with identifier `id`, for a pass that read the
    /// activation record `active`.
    pub fn new(id: Id, active: Option<(Id, iced::Point)>) -> (r: ContextMenu)
        ensures
            r.id_view() == id@,
            r.active_view() == record_view(active),
    {
        ContextMenu { id, active }
    }

    /// Whether the snapshot names this decorator as the owner of the open popup.
    pub fn is_active(&self) -> (r: bool)
        ensures
            r == is_owner(self.active_view(), self.id_view()),
    {
        match &self.active {
            Some((open, _)) => open.eq(&self.id),
            None => false,
        }
    }

    /// The overlay that this decorator produces in this pass: the popup,
    /// anchored at the record's point, when the record names this
    /// decorator, and none otherwise.
    pub fn overlay(&self) -> (r: Option<Overlay>)
        ensures
            r is Some <==> is_owner(self.active_view(), self.id_view()),
            r matches Some(o) ==> o.anchor == self.active_view().unwrap().1,
    {
        match &self.active {
            Some((open, at)) => {
                if open.eq(&self.id) {
                    Some(Overlay { anchor: *at })
                } else {
                    None
                }
            },
            None => None,
        }
    }

    /// Decides what the decorator does with `input`, where `hit` is the
    /// cursor's position when it lies over the decorator's bounds.
    pub fn route(&self, input: Input, hit: Option<iced::Point>) -> (r: Routing)
        ensures
            r is Open <==> opens(input, hit),
            r matches Routing::Open(id, at) ==> id@ == self.id_view() && hit == Some(at),
    {
        match (input, hit) {
            (Input::ButtonPressed(MouseButton::Right), Some(at)) => Routing::Open(self.id.clone(), at),
            _ => Routing::Forward,
        }
    }

    /// Decides what the decorator does with `input`, given iced's cursor and
    /// the decorator's bounds: [`ContextMenu::route`], with `hit` read from
    /// the cursor.
    pub fn on_event(&self, input: Input, cursor: iced::mouse::Cursor, bounds: iced::Rectangle) -> (r: Routing)
        ensures
            r is Open <==> opens(input, over_of(cursor, bounds)),
            r matches Routing::Open(id, at) ==> id@ == self.id_view() && over_of(cursor, bounds)
                == Some(at),
    {
        let hit = position_over(cursor, bounds);
        self.route(input, hit)
    }
}

/// Two decorators made from different names never both own the overlay,
/// even when they were made with the same snapshot of the record.
pub proof fn lemma_distinct_names_exclusive(m1: ContextMenu, m2: ContextMenu, n1: Seq<char>, n2: Seq<char>)
    requires
        m1.id_view() == IdView::Named(n1),
        m2.id_view() == IdView::Named(n2),
        n1 != n2,
        m1.active_view() == m2.active_view(),
    ensures
        !(is_owner(m1.active_view(), m1.id_view()) && is_owner(m2.active_view(), m2.id_view())),
{
}

/// A right press that lands outside every decorator and outside the open
/// popup passes through the decorators, and makes the popup emit its close
/// message without capturing the event. The event thus still reaches a
/// decorator it does land on, whose open request, handled after the close,
/// leaves that decorator's popup open at the press.
pub proof fn lemma_outside_press_dismisses(s: Option<(IdView, iced::Point)>, other: IdView, at: iced::Point)
    ensures
        !opens(Input::ButtonPressed(MouseButton::Right), None),
        dismisses(Input::ButtonPressed(MouseButton::Right), false),
        apply(s, Request::Close) == None::<(IdView, iced::Point)>,
        opens(Input::ButtonPressed(MouseButton::Right), Some(at)),
        open_step(apply(s, Request::Close), other, at) == Some((other, at)),
{
}

} // verus!
