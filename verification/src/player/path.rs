//! Where a player binary is looked for.
use vstd::prelude::*;
use crate::text::{chars_of, first_line, join, join_path, owned, string_of, trim, trim_chars};

verus! {

pub struct PlayerInfo {
    pub name: String,
    pub path: String,
}

/// The directories looked in when `which` finds nothing.
pub open spec fn search_path_list() -> Seq<Seq<char>> {
    seq!["/usr/bin"@, "/usr/local/bin"@, "/opt/local/bin"@, "/home/linuxbrew/.linuxbrew/bin"@]
}

pub fn search_paths() -> (r: Vec<&'static str>)
    ensures
        r@.len() == search_path_list().len(),
        forall|i: int| 0 <= i < r@.len() ==> #[trigger] r@[i]@ == search_path_list()[i],
{
    let r = vec!["/usr/bin", "/usr/local/bin", "/opt/local/bin", "/home/linuxbrew/.linuxbrew/bin"];
    assert(r@.len() == 4);
    r
}

/// The paths at which the binary is looked for after `which`, in order.
pub fn candidates(player_name: &str) -> (r: Vec<String>)
    ensures
        r@.len() == search_path_list().len(),
        forall|i: int| 0 <= i < r@.len() ==> #[trigger] r@[i]@ == join_path(search_path_list()[i], player_name@),
{
    let dirs = search_paths();
    let mut out: Vec<String> = Vec::new();
    let mut i: usize = 0;
    while i < dirs.len()
        invariant
            dirs@.len() == search_path_list().len(),
            forall|k: int| 0 <= k < dirs@.len() ==> #[trigger] dirs@[k]@ == search_path_list()[k],
            i <= dirs@.len(),
            out@.len() == i,
            forall|k: int| 0 <= k < i ==> #[trigger] out@[k]@ == join_path(search_path_list()[k], player_name@),
        decreases dirs@.len() - i,
    {
        out.push(join(dirs[i], player_name));
        i = i + 1;
    }
    out
}

/// What a `which` run says: the path it printed, trimmed, when it exited
/// with success and printed something.
pub fn which_path(success: bool, stdout: &str) -> (r: Option<String>)
    ensures
        (success && trim(stdout@).len() > 0) ==> (r matches Some(p) && p@ == trim(stdout@)),
        !(success && trim(stdout@).len() > 0) ==> r is None,
{
    if !success {
        return None;
    }
    let v = chars_of(stdout);
    let t = trim_chars(&v);
    if t.len() == 0 {
        None
    } else {
        Some(string_of(&t))
    }
}

/// The players tried, best first.
pub open spec fn best_player_names() -> Seq<Seq<char>> {
    seq!["mpv"@, "vlc"@, "mplayer"@]
}

pub fn player_names() -> (r: Vec<&'static str>)
    ensures
        r@.len() == best_player_names().len(),
        forall|i: int| 0 <= i < r@.len() ==> #[trigger] r@[i]@ == best_player_names()[i],
{
    let r = vec!["mpv", "vlc", "mplayer"];
    assert(r@.len() == 3);
    r
}

/// The best player, given where each of `player_names()` was found (`None`
/// where it was not): the first one found.
pub fn get_best_player(found: &Vec<Option<String>>) -> (r: Option<PlayerInfo>)
    ensures
        r matches Some(p) ==> exists|i: int|
            0 <= i < found@.len() && i < best_player_names().len() && (forall|j: int|
                0 <= j < i ==> found@[j] is None) && found@[i] == Some(p.path) && p.name@
                == best_player_names()[i],
        r is None ==> forall|i: int|
            0 <= i < found@.len() && i < best_player_names().len() ==> found@[i] is None,
{
    let names = player_names();
    let mut i: usize = 0;
    while i < found.len() && i < names.len()
        invariant
            names@.len() == best_player_names().len(),
            forall|k: int| 0 <= k < names@.len() ==> #[trigger] names@[k]@ == best_player_names()[k],
            i <= found@.len(),
            i <= names@.len(),
            forall|j: int| 0 <= j < i ==> found@[j] is None,
        decreases found@.len() - i,
    {
        if let Some(path) = &found[i] {
            return Some(PlayerInfo { name: owned(names[i]), path: path.clone() });
        }
        i = i + 1;
    }
    None
}

/// The names the detection report lists.
pub fn report_names() -> (r: Vec<&'static str>)
    ensures
        r@.len() == 4,
        r@[0]@ == "mpv"@,
        r@[1]@ == "vlc"@,
        r@[2]@ == "mplayer"@,
        r@[3]@ == "yt-dlp"@,
{
    vec!["mpv", "vlc", "mplayer", "yt-dlp"]
}

} // verus!
