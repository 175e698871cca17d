//! The shared activation record: which decorator, if any, has its popup
//! open, and where.
use vstd::prelude::*;

use crate::id::{Id, IdView};

verus! {

/// The activation record as the contracts see it: the identifier of the
/// decorator whose popup is open, and the anchor point, or `None`.
pub open spec fn record_view(r: Option<(Id, iced::Point)>) -> Option<(IdView, iced::Point)> {
    match r {
        Some((id, at)) => Some((id@, at)),
        None => None,
    }
}

/// Whether the record names `id` as the owner of the open popup.
pub open spec fn is_owner(s: Option<(IdView, iced::Point)>, id: IdView) -> bool {
    s is Some && s.unwrap().0 == id
}

/// The record after a request to open `id` at `at`: a second request of
/// the open decorator closes its popup, any other request opens the popup
/// of `id` in place of whatever was open.
pub open spec fn open_step(s: Option<(IdView, iced::Point)>, id: IdView, at: iced::Point) -> Option<(IdView, iced::Point)> {
    if is_owner(s, id) {
        None
    } else {
        Some((id, at))
    }
}

/// A request made to the record.
pub enum Request {
    Open(IdView, iced::Point),
    Close,
}

/// The record after one request.
pub open spec fn apply(s: Option<(IdView, iced::Point)>, req: Request) -> Option<(IdView, iced::Point)> {
    match req {
        Request::Open(id, at) => open_step(s, id, at),
        Request::Close => None,
    }
}

/// The record after the requests `reqs`, in order, from `s`.
pub open spec fn replay(s: Option<(IdView, iced::Point)>, reqs: Seq<Request>) -> Option<(IdView, iced::Point)>
    decreases reqs.len(),
{
    if reqs.len() == 0 {
        s
    } else {
        apply(replay(s, reqs.drop_last()), reqs.last())
    }
}

/// Holds the one activation record of a view. The host application owns
/// it, changes it only through [`ContextMenuState::on_right_click`] and
/// [`ContextMenuState::on_close`], and hands a snapshot of it to every
/// decorator of each render pass.
pub struct ContextMenuState {
    pub active_context_menu: Option<(Id, iced::Point)>,
}

impl View for ContextMenuState {
    type V = Option<(IdView, iced::Point)>;

    open spec fn view(&self) -> Option<(IdView, iced::Point)> {
        record_view(self.active_context_menu)
    }
}

impl ContextMenuState {
    /// A record with no popup open.
    pub fn new() -> (r: ContextMenuState)
        ensures
            r@ == None::<(IdView, iced::Point)>,
    {
        ContextMenuState { active_context_menu: None }
    }

    /// Handles a request of decorator `id` to open its popup at `position`:
    /// closes the popup if `id` has it open, else opens the popup of `id`
    /// at `position`, closing any other.
    pub fn on_right_click(&mut self, id: Id, position: iced::Point)
        ensures
            final(self)@ == open_step(old(self)@, id@, position),
    {
        let same = match &self.active_context_menu {
            Some((open, _)) => open.eq(&id),
            None => false,
        };
        if same {
            self.active_context_menu = None;
        } else {
            self.active_context_menu = Some((id, position));
        }
    }

    /// Closes whatever popup is open.
    pub fn on_close(&mut self)
        ensures
            final(self)@ == None::<(IdView, iced::Point)>,
    {
        self.active_context_menu = None;
    }

    /// A snapshot of the record, for one render pass.
    pub fn active(&self) -> (r: Option<(Id, iced::Point)>)
        ensures
            record_view(r) == self@,
    {
        match &self.active_context_menu {
            Some((id, at)) => Some((id.clone(), *at)),
            None => None,
        }
    }
}

/// Mutual exclusion: after any run of requests the record names at most
/// one open popup, and when it names one, that popup is the one that the
/// latest request opened, at the point that request gave.
pub proof fn lemma_single_activation(start: Option<(IdView, iced::Point)>, reqs: Seq<Request>)
    requires
        reqs.len() > 0,
    ensures
        replay(start, reqs) matches Some((id, at)) ==> reqs.last() == Request::Open(id, at),
        forall|a: IdView, b: IdView|
            is_owner(replay(start, reqs), a) && is_owner(replay(start, reqs), b) ==> a == b,
{
}

/// Toggle: opening the same decorator twice, from a record where it is not
/// open, leaves no popup open.
pub proof fn lemma_toggle(s: Option<(IdView, iced::Point)>, id: IdView, p: iced::Point, q: iced::Point)
    requires
        !is_owner(s, id),
    ensures
        open_step(s, id, p) == Some((id, p)),
        open_step(open_step(s, id, p), id, q) == None::<(IdView, iced::Point)>,
{
}

/// Switch: opening `a` and then a different `b` leaves the popup of `b`
/// open at the second point, and `a` no longer owns a popup.
pub proof fn lemma_switch(
    s: Option<(IdView, iced::Point)>,
    a: IdView,
    pa: iced::Point,
    b: IdView,
    pb: iced::Point,
)
    requires
        a != b,
    ensures
        open_step(open_step(s, a, pa), b, pb) == Some((b, pb)),
        !is_owner(open_step(open_step(s, a, pa), b, pb), a),
{
}

/// Round trip: opening `id` at `p` where it is not open makes the record
/// read `(id, p)`; closing then makes it read `None`.
pub proof fn lemma_open_close_round_trip(s: Option<(IdView, iced::Point)>, id: IdView, p: iced::Point)
    requires
        !is_owner(s, id),
    ensures
        open_step(s, id, p) == Some((id, p)),
        apply(open_step(s, id, p), Request::Close) == None::<(IdView, iced::Point)>,
{
}

} // verus!
