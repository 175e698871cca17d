//! The iced values that the routing carries through without reading them.
use vstd::prelude::*;

verus! {

#[verifier::external_type_specification]
#[verifier::external_body]
pub struct ExPoint(iced::Point);

#[verifier::external_type_specification]
#[verifier::external_body]
#[verifier::reject_recursive_types(T)]
pub struct ExRectangle<T>(iced::Rectangle<T>);

#[verifier::external_type_specification]
#[verifier::external_body]
pub struct ExCursor(iced::mouse::Cursor);

/// The cursor's position when the cursor is available and `bounds`
/// contains it, else `None`: what `Cursor::position_over` returns. It
/// depends on the two values alone; whether a point lies in a rectangle is
/// a floating-point comparison, so nothing more is said of it.
pub uninterp spec fn over_of(cursor: iced::mouse::Cursor, bounds: iced::Rectangle) -> Option<iced::Point>;

/// Relies on `iced::mouse::Cursor::position_over`, which filters the
/// cursor's position by `Rectangle::contains`: its result is [`over_of`].
#[verifier::external_body]
pub(crate) fn position_over(cursor: iced::mouse::Cursor, bounds: iced::Rectangle) -> (r: Option<iced::Point>)
    ensures
        r == over_of(cursor, bounds),
{
    cursor.position_over(bounds)
}

} // verus!
