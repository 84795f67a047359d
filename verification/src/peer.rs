//! Peers, as far as the logic tells them apart.
use vstd::prelude::*;

verus! {

/// A user, group or channel, known by its Bot API dialog number. The own account, where its number
/// is not known, has none.
#[derive(Clone, Copy, Debug, PartialEq, Eq, Hash, Structural)]
pub struct PeerId {
    pub dialog_id: Option<i64>,
}

} // verus!
