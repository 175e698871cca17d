//! Identifiers of decorators: a stable one made from a name, or a fresh one
//! drawn from iced's widget-id counter.
use vstd::prelude::*;

use iced::advanced::widget::Id as WidgetId;

verus! {

#[verifier::external_type_specification]
#[verifier::external_body]
pub struct ExWidgetId(WidgetId);

/// iced's widget id for a name: what `widget::Id::new` returns. It
/// depends on the name alone.
pub uninterp spec fn widget_id_of_name(name: Seq<char>) -> WidgetId;

/// Relies on `iced::advanced::widget::Id::new`, which wraps the name as
/// it is: its result is [`widget_id_of_name`].
#[verifier::external_body]
fn named_widget_id(name: &String) -> (r: WidgetId)
    ensures
        r == widget_id_of_name(name@),
{
    WidgetId::new(name.clone())
}

/// Relies on the derived `Clone` of `iced::advanced::widget::Id`: both of
/// its variants, `Unique(n)` and `Custom(name)`, clone field by field.
#[verifier::external_body]
fn clone_widget_id(w: &WidgetId) -> (r: WidgetId)
    ensures
        r == *w,
{
    w.clone()
}

/// A token drawn from iced's process-wide widget-id counter.
///
/// Its field is private and only [`fresh_ticket`] and [`copy_ticket`] fill
/// it, so every ticket holds an id that `widget::Id::unique` made.
#[derive(Debug, Hash)]
pub struct Ticket {
    widget: WidgetId,
}

/// Relies on `iced::advanced::widget::Id::unique`, which takes the next
/// number of a global atomic counter. Nothing is stated of the result: two
/// calls are never known to differ.
#[verifier::external_body]
fn fresh_ticket() -> (r: Ticket) {
    Ticket { widget: WidgetId::unique() }
}

/// Relies on the derived `PartialEq` of `iced::advanced::widget::Id`: an id
/// made by `unique` is `Unique(n)`, and two of them compare equal exactly
/// when their numbers are equal, that is when they are the same value.
#[verifier::external_body]
fn same_ticket(a: &Ticket, b: &Ticket) -> (r: bool)
    ensures
        r == (*a == *b),
{
    a.widget == b.widget
}

/// A second ticket holding the same id.
fn copy_ticket(t: &Ticket) -> (r: Ticket)
    ensures
        r == *t,
{
    Ticket { widget: clone_widget_id(&t.widget) }
}

impl Ticket {
    /// The widget id that the ticket holds.
    pub closed spec fn widget_id(&self) -> WidgetId {
        self.widget
    }
}

/// What an identifier is, for the contracts: the name it was made from, or
/// the ticket it was given.
pub enum IdView {
    Named(Seq<char>),
    Fresh(Ticket),
}

#[derive(Debug, Hash)]
enum Key {
    Named(String),
    Fresh(Ticket),
}

/// The identifier of a decorator.
///
/// Two identifiers are equal when both were made from equal names, or both
/// hold the same ticket.
#[derive(Debug, Hash)]
pub struct Id {
    key: Key,
}

impl View for Id {
    type V = IdView;

    closed spec fn view(&self) -> IdView {
        match self.key {
            Key::Named(s) => IdView::Named(s@),
            Key::Fresh(t) => IdView::Fresh(t),
        }
    }
}

impl Id {
    /// Creates a stable identifier: the same name gives an equal identifier
    /// on every call.
    pub fn new(name: &str) -> (r: Id)
        ensures
            r@ == IdView::Named(name@),
    {
        Id { key: Key::Named(name.to_owned()) }
    }

    /// Creates an identifier from a fresh ticket of iced's widget-id
    /// counter. The counter gives each call a new number, so the identifier
    /// differs from every one made before; the contract states its kind only.
    pub fn unique() -> (r: Id)
        ensures
            r@ is Fresh,
    {
        Id { key: Key::Fresh(fresh_ticket()) }
    }
}

impl Id {
    /// The iced widget id of this identifier: the widget id of its name,
    /// or the widget id held in its ticket.
    pub fn widget_id(&self) -> (r: WidgetId)
        ensures
            self@ matches IdView::Named(name) ==> r == widget_id_of_name(name),
            self@ matches IdView::Fresh(t) ==> r == t.widget_id(),
    {
        match &self.key {
            Key::Named(name) => named_widget_id(name),
            Key::Fresh(t) => clone_widget_id(&t.widget),
        }
    }
}

impl Clone for Id {
    fn clone(&self) -> (r: Id)
        ensures
            r@ == self@,
    {
        match &self.key {
            Key::Named(s) => Id { key: Key::Named(s.clone()) },
            Key::Fresh(t) => Id { key: Key::Fresh(copy_ticket(t)) },
        }
    }
}

impl PartialEq for Id {
    fn eq(&self, other: &Id) -> (r: bool)
        ensures
            r == (self@ == other@),
    {
        match (&self.key, &other.key) {
            (Key::Named(a), Key::Named(b)) => a.eq(b),
            (Key::Fresh(a), Key::Fresh(b)) => same_ticket(a, b),
            _ => false,
        }
    }
}

impl vstd::std_specs::cmp::PartialEqSpecImpl for Id {
    open spec fn obeys_eq_spec() -> bool {
        true
    }

    open spec fn eq_spec(&self, other: &Id) -> bool {
        self@ == other@
    }
}

impl Eq for Id {}

} // verus!
