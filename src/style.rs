//! The style of the buttons inside a popup menu.
use vstd::prelude::*;

verus! {

/// Selects the popup menu's button style. The colors themselves come from
/// the host's theme, which the host application applies.
#[derive(Clone, Copy, Debug)]
pub struct ContextMenuStyleSheet;

} // verus!
