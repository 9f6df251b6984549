pub mod detector;
pub mod ipc;
pub mod mpv;
pub mod path;
pub mod vlc;

use vstd::prelude::*;
use crate::text::{lowercase, str_eq, to_lowercase};

verus! {

/// The players the application can build.
pub enum PlayerKind {
    Mpv,
}

/// The player a configured name asks for: mpv for `"mpv"` in any case, or
/// for an empty name; no player for any other name.
pub fn player_kind(player_name: &str) -> (r: Option<PlayerKind>)
    ensures
        (lowercase(player_name@) == "mpv"@ || lowercase(player_name@).len() == 0) ==> r
            == Some(PlayerKind::Mpv),
        !(lowercase(player_name@) == "mpv"@ || lowercase(player_name@).len() == 0) ==> r is None,
{
    let name = to_lowercase(player_name);
    if str_eq(name.as_str(), "mpv") || str_eq(name.as_str(), "") {
        proof {
            reveal_strlit("");
        }
        Some(PlayerKind::Mpv)
    } else {
        proof {
            reveal_strlit("");
            if lowercase(player_name@).len() == 0 {
                assert(name@ =~= ""@);
            }
        }
        None
    }
}

} // verus!
