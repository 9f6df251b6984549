//! Media player detection: where binaries are looked for, the cache of
//! what was found, and the choice among the players found. The file
//! system and the processes are probed by the application.
use vstd::prelude::*;
use crate::db::connection::copy_opt;
use crate::text::{chars_eq, chars_of, first_line, first_line_of, join, join_path, owned, str_eq, string_of};

verus! {

pub struct PlayerInfo {
    pub path: String,
    pub name: String,
    pub version: Option<String>,
    pub working: bool,
}

impl Clone for PlayerInfo {
    fn clone(&self) -> (r: Self)
        ensures
            r == *self,
    {
        PlayerInfo {
            path: self.path.clone(),
            name: self.name.clone(),
            version: copy_opt(&self.version),
            working: self.working,
        }
    }
}

/// The players detected, in order of preference.
pub open spec fn media_player_list() -> Seq<Seq<char>> {
    seq!["mpv"@, "vlc"@, "smplayer"@, "gmplayer"@, "kitty"@]
}

pub fn media_players() -> (r: Vec<&'static str>)
    ensures
        r@.len() == media_player_list().len(),
        forall|i: int| 0 <= i < r@.len() ==> #[trigger] r@[i]@ == media_player_list()[i],
{
    let r = vec!["mpv", "vlc", "smplayer", "gmplayer", "kitty"];
    assert(r@.len() == 5);
    r
}

/// The directories looked in after `PATH` and `~/.local/bin`.
pub open spec fn extended_path_list() -> Seq<Seq<char>> {
    seq!["/usr/bin"@, "/usr/local/bin"@, "/snap/bin"@, "/opt/bin"@, "/sw/bin"@, ".local/bin"@]
}

pub fn extended_paths() -> (r: Vec<&'static str>)
    ensures
        r@.len() == extended_path_list().len(),
        forall|i: int| 0 <= i < r@.len() ==> #[trigger] r@[i]@ == extended_path_list()[i],
{
    let r = vec!["/usr/bin", "/usr/local/bin", "/snap/bin", "/opt/bin", "/sw/bin", ".local/bin"];
    assert(r@.len() == 6);
    r
}

/// Each directory with `name` pushed onto it.
pub open spec fn joined_all(dirs: Seq<Seq<char>>, name: Seq<char>) -> Seq<Seq<char>> {
    dirs.map_values(|d: Seq<char>| join_path(d, name))
}

/// The paths at which `name` is looked for, in order: in each directory of
/// `PATH`, in `~/.local/bin` when the home directory is known, then in each
/// of the extended directories.
pub open spec fn candidate_list(path_dirs: Seq<Seq<char>>, home: Option<Seq<char>>, name: Seq<char>) -> Seq<Seq<char>> {
    joined_all(path_dirs, name) + match home {
        Some(h) => seq![join_path(join_path(h, ".local/bin"@), name)],
        None => Seq::empty(),
    } + joined_all(extended_path_list(), name)
}

pub open spec fn opt_view(home: Option<&str>) -> Option<Seq<char>> {
    match home {
        Some(h) => Some(h@),
        None => None,
    }
}

pub open spec fn views(v: Seq<String>) -> Seq<Seq<char>> {
    v.map_values(|s: String| s@)
}

fn push_joined(out: &mut Vec<String>, dirs: &Vec<String>, name: &str)
    ensures
        views(final(out)@) == views(old(out)@) + joined_all(views(dirs@), name@),
{
    let ghost start = views(out@);
    let mut i: usize = 0;
    while i < dirs.len()
        invariant
            i <= dirs@.len(),
            views(out@) == start + joined_all(views(dirs@.take(i as int)), name@),
        decreases dirs@.len() - i,
    {
        let ghost prev = out@;
        out.push(join(dirs[i].as_str(), name));
        proof {
            assert(views(out@) =~= views(prev).push(join_path(dirs@[i as int]@, name@)));
            assert(joined_all(views(dirs@.take(i + 1)), name@) =~= joined_all(
                views(dirs@.take(i as int)),
                name@,
            ).push(join_path(dirs@[i as int]@, name@)));
            assert(views(out@) =~= start + joined_all(views(dirs@.take(i + 1)), name@));
        }
        i = i + 1;
    }
    assert(dirs@.take(dirs@.len() as int) =~= dirs@);
}

/// The candidate paths of `name` (see `candidate_list`).
pub fn candidate_paths(path_dirs: &Vec<String>, home: Option<&str>, name: &str) -> (r: Vec<String>)
    ensures
        views(r@) == candidate_list(views(path_dirs@), opt_view(home), name@),
{
    let mut out: Vec<String> = Vec::new();
    assert(views(out@) =~= Seq::<Seq<char>>::empty());
    push_joined(&mut out, path_dirs, name);
    let ghost after_path = views(out@);
    match home {
        Some(h) => {
            let local = join(h, ".local/bin");
            out.push(join(local.as_str(), name));
            assert(views(out@) =~= after_path.push(join_path(join_path(h@, ".local/bin"@), name@)));
        },
        None => {},
    }
    let ext = extended_paths();
    let mut ext_owned: Vec<String> = Vec::new();
    let mut i: usize = 0;
    while i < ext.len()
        invariant
            ext@.len() == extended_path_list().len(),
            forall|k: int| 0 <= k < ext@.len() ==> #[trigger] ext@[k]@ == extended_path_list()[k],
            i <= ext@.len(),
            views(ext_owned@) == extended_path_list().take(i as int),
        decreases ext@.len() - i,
    {
        let ghost prev = ext_owned@;
        ext_owned.push(owned(ext[i]));
        assert(views(ext_owned@) =~= views(prev).push(ext@[i as int]@));
        assert(views(ext_owned@) =~= extended_path_list().take(i + 1));
        i = i + 1;
    }
    assert(extended_path_list().take(6) =~= extended_path_list());
    let ghost before_ext = views(out@);
    push_joined(&mut out, &ext_owned, name);
    proof {
        let c = candidate_list(views(path_dirs@), opt_view(home), name@);
        assert(views(out@) =~= c);
    }
    out
}

/// What a `--version` run says: the first line of its output (or `"?"`)
/// and that the player works, when it exited with success; no version and
/// not working otherwise.
pub fn version_from_output(success: bool, stdout: &str) -> (r: (Option<String>, bool))
    ensures
        success ==> r.1 && (r.0 matches Some(v) && v@ == match first_line(stdout@) {
            Some(l) => l,
            None => "?"@,
        }),
        !success ==> r.0 is None && !r.1,
{
    if !success {
        return (None, false);
    }
    let v = chars_of(stdout);
    match first_line_of(&v) {
        Some(l) => (Some(string_of(&l)), true),
        None => (Some(owned("?")), true),
    }
}

/// The players that were found and work, in order (`None` stands for a
/// player not found).
pub open spec fn working_players(found: Seq<Option<PlayerInfo>>) -> Seq<PlayerInfo>
    decreases found.len(),
{
    if found.len() == 0 {
        Seq::empty()
    } else {
        let rest = working_players(found.drop_last());
        match found.last() {
            Some(info) => if info.working {
                rest.push(info)
            } else {
                rest
            },
            None => rest,
        }
    }
}

/// Keeps, in order, the players that were found and work.
pub fn detect_players(found: Vec<Option<PlayerInfo>>) -> (r: Vec<PlayerInfo>)
    ensures
        r@ == working_players(found@),
{
    let ghost all = found@;
    let mut found = found;
    let mut out: Vec<PlayerInfo> = Vec::new();
    while found.len() > 0
        invariant
            found@.len() <= all.len(),
            found@ == all.skip(all.len() - found@.len()),
            out@ == working_players(all.take(all.len() - found@.len())),
        decreases found@.len(),
    {
        let ghost k = all.len() - found@.len();
        let f = found.remove(0);
        proof {
            assert(all.take(k + 1).drop_last() =~= all.take(k));
            assert(all.take(k + 1).last() == f);
            assert(found@ =~= all.skip(all.len() - found@.len()));
        }
        if let Some(info) = f {
            if info.working {
                out.push(info);
            }
        }
    }
    assert(all.take(all.len() as int) =~= all);
    out
}

/// The player to use: the first working player named `"mpv"`.
pub fn get_best_player(players: &Vec<PlayerInfo>) -> (r: Option<PlayerInfo>)
    ensures
        r matches Some(p) ==> exists|i: int|
            0 <= i < players@.len() && players@[i] == p && p.name@ == "mpv"@ && p.working && (forall|j: int|
                0 <= j < i ==> !(players@[j].name@ == "mpv"@ && players@[j].working)),
        r is None ==> forall|j: int|
            0 <= j < players@.len() ==> !(players@[j].name@ == "mpv"@ && players@[j].working),
{
    let mut i: usize = 0;
    while i < players.len()
        invariant
            i <= players@.len(),
            forall|j: int| 0 <= j < i ==> !(players@[j].name@ == "mpv"@ && players@[j].working),
        decreases players@.len() - i,
    {
        if str_eq(players[i].name.as_str(), "mpv") && players[i].working {
            return Some(players[i].clone());
        }
        i = i + 1;
    }
    None
}

/// What probing one player found: the binary's path, and whether its
/// `--version` run succeeded with what it printed.
pub struct Probe {
    pub path: String,
    pub version_ok: bool,
    pub version_stdout: String,
}

/// `info` is what the probe `p` of `name` makes: its path and name, the
/// first line of the version output (or `"?"`) and working when the
/// version run succeeded, no version and not working otherwise.
pub open spec fn info_from_probe(info: PlayerInfo, name: Seq<char>, p: Probe) -> bool {
    &&& info.path@ == p.path@
    &&& info.name@ == name
    &&& info.working == p.version_ok
    &&& p.version_ok ==> (info.version matches Some(v) && v@ == match first_line(p.version_stdout@) {
        Some(l) => l,
        None => "?"@,
    })
    &&& !p.version_ok ==> info.version is None
}

/// What a map holds for `k`.
pub open spec fn lookup(m: Map<Seq<char>, PlayerInfo>, k: Seq<char>) -> Option<PlayerInfo> {
    if m.contains_key(k) {
        Some(m[k])
    } else {
        None
    }
}

/// What a map holds for each of `names`.
pub open spec fn cached_for(m: Map<Seq<char>, PlayerInfo>, names: Seq<Seq<char>>) -> Seq<Option<PlayerInfo>> {
    names.map_values(|k: Seq<char>| lookup(m, k))
}

/// The player names are distinct.
pub proof fn lemma_player_names_distinct()
    ensures
        forall|i: int, j: int|
            0 <= i < j < media_player_list().len() ==> media_player_list()[i] != media_player_list()[j],
{
    reveal_strlit("mpv");
    reveal_strlit("vlc");
    reveal_strlit("smplayer");
    reveal_strlit("gmplayer");
    reveal_strlit("kitty");
    let l = media_player_list();
    assert(l[0].len() == 3 && l[1].len() == 3 && l[2].len() == 8 && l[3].len() == 8 && l[4].len() == 5);
    assert(l[0][0] == 'm' && l[1][0] == 'v' && l[2][0] == 's' && l[3][0] == 'g');
}

/// The player a probe found, as `PlayerInfo`.
fn info_of(name: &str, p: &Probe) -> (r: PlayerInfo)
    ensures
        info_from_probe(r, name@, *p),
{
    let (version, working) = version_from_output(p.version_ok, p.version_stdout.as_str());
    PlayerInfo { path: owned(p.path.as_str()), name: owned(name), version, working }
}

/// Detects the players, in order of preference, through the cache: a
/// player already cached is taken from it and not probed again; one that
/// is not is taken from its probe (`probes[i]` for the `i`-th player
/// name; `None` when its binary was not found) and cached. The result is
/// the players the cache then holds that work, in order.
pub fn detect_players_cached(cache: &mut PlayerCache, probes: Vec<Option<Probe>>) -> (r: Vec<PlayerInfo>)
    requires
        old(cache).wf(),
        probes@.len() == media_player_list().len(),
    ensures
        final(cache).wf(),
        forall|k: Seq<char>| #[trigger] final(cache).view().contains_key(k) <==> (old(cache).view().contains_key(k)
            || exists|i: int| 0 <= i < media_player_list().len() && k == media_player_list()[i]
            && probes@[i] is Some),
        forall|k: Seq<char>| #[trigger] old(cache).view().contains_key(k) ==> final(cache).view()[k]
            == old(cache).view()[k],
        forall|i: int| 0 <= i < media_player_list().len() && !old(cache).view().contains_key(
            #[trigger] media_player_list()[i]) && probes@[i] is Some ==> info_from_probe(
            final(cache).view()[media_player_list()[i]],
            media_player_list()[i],
            probes@[i]->0,
        ),
        r@ == working_players(cached_for(final(cache).view(), media_player_list())),
{
    proof {
        lemma_player_names_distinct();
    }
    let names = media_players();
    let ghost list = media_player_list();
    let ghost start = cache.view();
    let mut found: Vec<Option<PlayerInfo>> = Vec::new();
    let mut i: usize = 0;
    while i < names.len()
        invariant
            names@.len() == list.len(),
            list == media_player_list(),
            forall|a: int| 0 <= a < names@.len() ==> #[trigger] names@[a]@ == list[a],
            forall|a: int, b: int| 0 <= a < b < list.len() ==> list[a] != list[b],
            probes@.len() == list.len(),
            start == old(cache).view(),
            cache.wf(),
            i <= list.len(),
            found@.len() == i,
            forall|j: int| 0 <= j < i ==> #[trigger] found@[j] == lookup(cache.view(), list[j]),
            forall|k: Seq<char>| #[trigger] cache.view().contains_key(k) <==> (start.contains_key(k)
                || exists|j: int| 0 <= j < i && k == list[j] && probes@[j] is Some),
            forall|k: Seq<char>| #[trigger] start.contains_key(k) ==> cache.view()[k] == start[k],
            forall|j: int| 0 <= j < i && !start.contains_key(#[trigger] list[j]) && probes@[j] is Some
                ==> info_from_probe(cache.view()[list[j]], list[j], probes@[j]->0),
        decreases list.len() - i,
    {
        let name = names[i];
        let ghost before = cache.view();
        match cache.get(name) {
            Some(info) => {
                found.push(Some(info));
                proof {
                    assert forall|k: Seq<char>| #[trigger] cache.view().contains_key(k) <==> (start.contains_key(k)
                        || exists|j: int| 0 <= j < i + 1 && k == list[j] && probes@[j] is Some) by {
                        if k == list[i as int] && probes@[i as int] is Some {
                            assert(cache.view().contains_key(k));
                        }
                    }
                }
            },
            None => {
                match &probes[i] {
                    Some(p) => {
                        let info = info_of(name, p);
                        cache.insert(name, info.clone());
                        found.push(Some(info));
                        proof {
                            assert(!before.contains_key(list[i as int]));
                            assert(!start.contains_key(list[i as int]));
                            assert forall|j: int| 0 <= j < i + 1 implies #[trigger] found@[j] == lookup(
                                cache.view(),
                                list[j],
                            ) by {
                                if j < i {
                                    assert(list[j] != list[i as int]);
                                }
                            }
                            assert forall|k: Seq<char>| #[trigger] cache.view().contains_key(k) <==> (
                            start.contains_key(k) || exists|j: int|
                                0 <= j < i + 1 && k == list[j] && probes@[j] is Some) by {
                                if k == list[i as int] {
                                    assert(cache.view().contains_key(k));
                                }
                            }
                            assert forall|k: Seq<char>| #[trigger] start.contains_key(k) implies cache.view()[k]
                                == start[k] by {
                                assert(k != list[i as int]);
                            }
                            assert forall|j: int|
                                0 <= j < i + 1 && !start.contains_key(#[trigger] list[j])
                                    && probes@[j] is Some implies info_from_probe(
                                cache.view()[list[j]],
                                list[j],
                                probes@[j]->0,
                            ) by {
                                if j < i {
                                    assert(list[j] != list[i as int]);
                                }
                            }
                        }
                    },
                    None => {
                        found.push(None);
                        proof {
                            assert forall|k: Seq<char>| #[trigger] cache.view().contains_key(k) <==> (
                            start.contains_key(k) || exists|j: int|
                                0 <= j < i + 1 && k == list[j] && probes@[j] is Some) by {
                                if cache.view().contains_key(k) && !start.contains_key(k) {
                                    let j = choose|j: int| 0 <= j < i && k == list[j] && probes@[j] is Some;
                                }
                            }
                        }
                    },
                }
            },
        }
        i = i + 1;
    }
    assert(found@ =~= cached_for(cache.view(), list));
    detect_players(found)
}

/// Each player the detection keeps comes from `found`, works, and keeps
/// its place: players kept in one order were found in that order; every
/// working player found is kept.
pub proof fn lemma_working_players(found: Seq<Option<PlayerInfo>>)
    ensures
        forall|j: int| 0 <= j < working_players(found).len() ==> exists|i: int|
            0 <= i < found.len() && found[i] == Some(#[trigger] working_players(found)[j])
                && working_players(found)[j].working,
        forall|j1: int, j2: int| 0 <= j1 < j2 < working_players(found).len() ==> exists|i1: int, i2: int|
            0 <= i1 < i2 < found.len() && found[i1] == Some(#[trigger] working_players(found)[j1])
                && found[i2] == Some(#[trigger] working_players(found)[j2]),
        forall|i: int| 0 <= i < found.len() && (#[trigger] found[i] matches Some(x) && x.working)
            ==> working_players(found).contains(found[i]->0),
    decreases found.len(),
{
    if found.len() > 0 {
        let pre = found.drop_last();
        lemma_working_players(pre);
        let w = working_players(found);
        let wp = working_players(pre);
        assert forall|j: int| 0 <= j < w.len() implies exists|i: int|
            0 <= i < found.len() && found[i] == Some(#[trigger] w[j]) && w[j].working by {
            if j < wp.len() {
                assert(w[j] == wp[j]);
                let i = choose|i: int| 0 <= i < pre.len() && pre[i] == Some(#[trigger] wp[j]) && wp[j].working;
                assert(found[i] == pre[i]);
            } else {
                assert(found[found.len() - 1] == Some(w[j]));
            }
        }
        assert forall|j1: int, j2: int| 0 <= j1 < j2 < w.len() implies exists|i1: int, i2: int|
            0 <= i1 < i2 < found.len() && found[i1] == Some(#[trigger] w[j1])
                && found[i2] == Some(#[trigger] w[j2]) by {
            if j2 < wp.len() {
                let (i1, i2) = choose|i1: int, i2: int|
                    0 <= i1 < i2 < pre.len() && pre[i1] == Some(#[trigger] wp[j1])
                        && pre[i2] == Some(#[trigger] wp[j2]);
                assert(found[i1] == pre[i1] && found[i2] == pre[i2]);
            } else {
                assert(w[j1] == wp[j1]);
                let i1 = choose|i: int| 0 <= i < pre.len() && pre[i] == Some(#[trigger] wp[j1]) && wp[j1].working;
                assert(found[i1] == pre[i1]);
                assert(found[found.len() - 1] == Some(w[j2]));
            }
        }
        assert forall|i: int| 0 <= i < found.len() && (#[trigger] found[i] matches Some(x) && x.working)
            implies w.contains(found[i]->0) by {
            if i < pre.len() {
                assert(pre[i] == found[i]);
                let k = choose|k: int| 0 <= k < wp.len() && wp[k] == found[i]->0;
                assert(w[k] == wp[k]);
            } else {
                assert(w[w.len() - 1] == found[i]->0);
            }
        }
    }
}

/// Every cached player is cached under its own name and, when it works,
/// has a version: what detection caches is always so.
pub open spec fn probed(m: Map<Seq<char>, PlayerInfo>) -> bool {
    forall|k: Seq<char>| #[trigger] m.contains_key(k) ==> m[k].name@ == k && (m[k].working ==> m[k].version is Some)
}

/// The cache after a detection (related to the cache before as
/// `detect_players_cached` states) stays as `probed` describes.
pub proof fn law_detection_caches_probed_players(
    before: Map<Seq<char>, PlayerInfo>,
    after: Map<Seq<char>, PlayerInfo>,
    probes: Seq<Option<Probe>>,
)
    requires
        probed(before),
        probes.len() == media_player_list().len(),
        forall|k: Seq<char>| #[trigger] after.contains_key(k) <==> (before.contains_key(k)
            || exists|i: int| 0 <= i < media_player_list().len() && k == media_player_list()[i]
            && probes[i] is Some),
        forall|k: Seq<char>| #[trigger] before.contains_key(k) ==> after[k] == before[k],
        forall|i: int| 0 <= i < media_player_list().len() && !before.contains_key(
            #[trigger] media_player_list()[i]) && probes[i] is Some ==> info_from_probe(
            after[media_player_list()[i]],
            media_player_list()[i],
            probes[i]->0,
        ),
    ensures
        probed(after),
{
    assert forall|k: Seq<char>| #[trigger] after.contains_key(k) implies after[k].name@ == k && (
    after[k].working ==> after[k].version is Some) by {
        if !before.contains_key(k) {
            let i = choose|i: int| 0 <= i < media_player_list().len() && k == media_player_list()[i]
                && probes[i] is Some;
            assert(info_from_probe(after[media_player_list()[i]], media_player_list()[i], probes[i]->0));
        }
    }
}

/// The players a detection gives, from a cache as `probed` describes,
/// all work and have a version, and come in the order of the player
/// names, so that no name comes twice.
pub proof fn law_detected_players(m: Map<Seq<char>, PlayerInfo>)
    requires
        probed(m),
    ensures
        ({
            let r = working_players(cached_for(m, media_player_list()));
            &&& forall|j: int| 0 <= j < r.len() ==> #[trigger] r[j].working && r[j].version is Some
            &&& forall|j: int| 0 <= j < r.len() ==> media_player_list().contains(#[trigger] r[j].name@)
            &&& forall|j1: int, j2: int| 0 <= j1 < j2 < r.len() ==> exists|i1: int, i2: int|
                0 <= i1 < i2 < media_player_list().len() && #[trigger] r[j1].name@ == media_player_list()[i1]
                    && #[trigger] r[j2].name@ == media_player_list()[i2]
            &&& forall|j1: int, j2: int| 0 <= j1 < j2 < r.len() ==> #[trigger] r[j1].name@ != #[trigger] r[j2].name@
        }),
{
    let list = media_player_list();
    let f = cached_for(m, list);
    let r = working_players(f);
    lemma_working_players(f);
    lemma_player_names_distinct();
    assert forall|j: int| 0 <= j < r.len() implies #[trigger] r[j].working && r[j].version is Some
        && list.contains(r[j].name@) by {
        let i = choose|i: int| 0 <= i < f.len() && f[i] == Some(#[trigger] r[j]) && r[j].working;
        assert(m.contains_key(list[i]));
        assert(list[i] == r[j].name@);
    }
    assert forall|j1: int, j2: int| 0 <= j1 < j2 < r.len() implies exists|i1: int, i2: int|
        0 <= i1 < i2 < list.len() && #[trigger] r[j1].name@ == list[i1] && #[trigger] r[j2].name@
            == list[i2] by {
        let (i1, i2) = choose|i1: int, i2: int|
            0 <= i1 < i2 < f.len() && f[i1] == Some(#[trigger] r[j1]) && f[i2] == Some(#[trigger] r[j2]);
        assert(m.contains_key(list[i1]) && m.contains_key(list[i2]));
    }
    assert forall|j1: int, j2: int| 0 <= j1 < j2 < r.len() implies #[trigger] r[j1].name@ != #[trigger] r[j2].name@ by {
        let (i1, i2) = choose|i1: int, i2: int|
            0 <= i1 < i2 < f.len() && f[i1] == Some(#[trigger] r[j1]) && f[i2] == Some(#[trigger] r[j2]);
        assert(m.contains_key(list[i1]) && m.contains_key(list[i2]));
        assert(list[i1] != list[i2]);
    }
}

/// A player once detected is cached and not probed again: a later
/// detection (whose cache keeps what the earlier one held, as
/// `detect_players_cached` states) gives it again, unchanged.
pub proof fn law_detected_player_is_kept(first: Map<Seq<char>, PlayerInfo>, later: Map<Seq<char>, PlayerInfo>)
    requires
        forall|k: Seq<char>| #[trigger] first.contains_key(k) ==> later.contains_key(k) && later[k] == first[k],
    ensures
        forall|j: int| 0 <= j < working_players(cached_for(first, media_player_list())).len()
            ==> working_players(cached_for(later, media_player_list())).contains(
            #[trigger] working_players(cached_for(first, media_player_list()))[j],
        ),
{
    let list = media_player_list();
    let f1 = cached_for(first, list);
    let f2 = cached_for(later, list);
    lemma_working_players(f1);
    lemma_working_players(f2);
    assert forall|j: int| 0 <= j < working_players(f1).len() implies working_players(f2).contains(
        #[trigger] working_players(f1)[j],
    ) by {
        let x = working_players(f1)[j];
        let i = choose|i: int| 0 <= i < f1.len() && f1[i] == Some(#[trigger] working_players(f1)[j]) && x.working;
        assert(first.contains_key(list[i]));
        assert(f2[i] == Some(x));
    }
}

/// What is cached for a name is what was last inserted for it; inserting
/// for one name leaves the others as they were.
pub proof fn law_cache_read_after_write(
    before: Map<Seq<char>, PlayerInfo>,
    name: Seq<char>,
    other: Seq<char>,
    info: PlayerInfo,
)
    requires
        other != name,
    ensures
        before.insert(name, info).contains_key(name),
        before.insert(name, info)[name] == info,
        before.insert(name, info).contains_key(other) == before.contains_key(other),
        before.contains_key(other) ==> before.insert(name, info)[other] == before[other],
{
}


/// The detection cache: for each player name, what was found for it.
pub struct PlayerCache {
    pub entries: Vec<(String, PlayerInfo)>,
}

impl PlayerCache {
    /// No name is cached twice.
    pub open spec fn wf(&self) -> bool {
        forall|i: int, j: int|
            0 <= i < j < self.entries@.len() ==> self.entries@[i].0@ != self.entries@[j].0@
    }

    /// The cache as a map from names.
    pub open spec fn view(&self) -> Map<Seq<char>, PlayerInfo> {
        Map::new(
            |k: Seq<char>| exists|i: int| 0 <= i < self.entries@.len() && self.entries@[i].0@ == k,
            |k: Seq<char>|
                self.entries@[choose|i: int| 0 <= i < self.entries@.len() && self.entries@[i].0@ == k].1,
        )
    }

    pub fn new() -> (r: PlayerCache)
        ensures
            r.wf(),
            r.view() == Map::<Seq<char>, PlayerInfo>::empty(),
    {
        let r = PlayerCache { entries: Vec::new() };
        assert(r.view() =~= Map::<Seq<char>, PlayerInfo>::empty());
        r
    }

    proof fn lemma_at(&self, i: int)
        requires
            self.wf(),
            0 <= i < self.entries@.len(),
        ensures
            self.view().contains_key(self.entries@[i].0@),
            self.view()[self.entries@[i].0@] == self.entries@[i].1,
    {
        let k = self.entries@[i].0@;
        let c = choose|c: int| 0 <= c < self.entries@.len() && self.entries@[c].0@ == k;
        if c != i {
            if c < i {
                assert(self.entries@[c].0@ != self.entries@[i].0@);
            } else {
                assert(self.entries@[i].0@ != self.entries@[c].0@);
            }
        }
    }

    /// What is cached for `name`.
    pub fn get(&self, name: &str) -> (r: Option<PlayerInfo>)
        requires
            self.wf(),
        ensures
            self.view().contains_key(name@) ==> r == Some(self.view()[name@]),
            !self.view().contains_key(name@) ==> r is None,
    {
        let mut i: usize = 0;
        while i < self.entries.len()
            invariant
                self.wf(),
                i <= self.entries@.len(),
                forall|j: int| 0 <= j < i ==> self.entries@[j].0@ != name@,
            decreases self.entries@.len() - i,
        {
            if str_eq(self.entries[i].0.as_str(), name) {
                proof {
                    self.lemma_at(i as int);
                }
                return Some(self.entries[i].1.clone());
            }
            i = i + 1;
        }
        None
    }

    /// Caches `info` for `name`, in place of what was cached for it.
    pub fn insert(&mut self, name: &str, info: PlayerInfo)
        requires
            old(self).wf(),
        ensures
            final(self).wf(),
            final(self).view() == old(self).view().insert(name@, info),
    {
        let ghost old_view = self.view();
        let mut i: usize = 0;
        while i < self.entries.len()
            invariant
                self.wf(),
                self.view() == old_view,
                old_view == old(self).view(),
                i <= self.entries@.len(),
                forall|j: int| 0 <= j < i ==> self.entries@[j].0@ != name@,
            decreases self.entries@.len() - i,
        {
            if str_eq(self.entries[i].0.as_str(), name) {
                let ghost before = self.entries@;
                self.entries.set(i, (owned(name), info));
                proof {
                    assert forall|a: int, b: int|
                        0 <= a < b < self.entries@.len() implies self.entries@[a].0@
                        != self.entries@[b].0@ by {
                        assert(before[a].0@ != before[b].0@);
                    }
                    assert forall|k: Seq<char>| #[trigger] self.view().contains_key(k)
                        == old_view.insert(name@, info).contains_key(k) by {
                        if k != name@ {
                            if self.view().contains_key(k) {
                                let c = choose|c: int| 0 <= c < self.entries@.len() && self.entries@[c].0@ == k;
                                assert(before[c].0@ == k);
                            }
                            if old_view.contains_key(k) {
                                let c = choose|c: int| 0 <= c < before.len() && before[c].0@ == k;
                                assert(self.entries@[c].0@ == k);
                            }
                        } else {
                            assert(self.entries@[i as int].0@ == k);
                        }
                    }
                    assert forall|k: Seq<char>| #[trigger] self.view().contains_key(k) implies self.view()[k]
                        == old_view.insert(name@, info)[k] by {
                        let c = choose|c: int| 0 <= c < self.entries@.len() && self.entries@[c].0@ == k;
                        self.lemma_at(c);
                        if k != name@ {
                            assert(c != i);
                            assert(before[c] == self.entries@[c]);
                            let oc = choose|oc: int| 0 <= oc < before.len() && before[oc].0@ == k;
                            if oc != c {
                                if oc < c {
                                    assert(before[oc].0@ != before[c].0@);
                                } else {
                                    assert(before[c].0@ != before[oc].0@);
                                }
                            }
                        }
                    }
                    assert(self.view() =~= old_view.insert(name@, info));
                }
                return;
            }
            i = i + 1;
        }
        let ghost before = self.entries@;
        self.entries.push((owned(name), info));
        proof {
            let n = before.len() as int;
            assert forall|a: int, b: int|
                0 <= a < b < self.entries@.len() implies self.entries@[a].0@ != self.entries@[b].0@ by {
                if b < n {
                    assert(before[a].0@ != before[b].0@);
                }
            }
            assert forall|k: Seq<char>| #[trigger] self.view().contains_key(k)
                == old_view.insert(name@, info).contains_key(k) by {
                if k != name@ {
                    if self.view().contains_key(k) {
                        let c = choose|c: int| 0 <= c < self.entries@.len() && self.entries@[c].0@ == k;
                        assert(c < n);
                        assert(before[c].0@ == k);
                    }
                    if old_view.contains_key(k) {
                        let c = choose|c: int| 0 <= c < before.len() && before[c].0@ == k;
                        assert(self.entries@[c].0@ == k);
                    }
                } else {
                    assert(self.entries@[n].0@ == k);
                }
            }
            assert forall|k: Seq<char>| #[trigger] self.view().contains_key(k) implies self.view()[k]
                == old_view.insert(name@, info)[k] by {
                let c = choose|c: int| 0 <= c < self.entries@.len() && self.entries@[c].0@ == k;
                self.lemma_at(c);
                if k != name@ {
                    assert(c < n);
                    let oc = choose|oc: int| 0 <= oc < before.len() && before[oc].0@ == k;
                    if oc != c {
                        if oc < c {
                            assert(before[oc].0@ != before[c].0@);
                        } else {
                            assert(before[c].0@ != before[oc].0@);
                        }
                    }
                } else {
                    assert(self.entries@[n].0@ == name@);
                    if c != n {
                        assert(before[c].0@ == name@);
                    }
                }
            }
            assert(self.view() =~= old_view.insert(name@, info));
        }
    }

    /// Forgets everything cached.
    pub fn clear_cache(&mut self)
        ensures
            final(self).wf(),
            final(self).view() == Map::<Seq<char>, PlayerInfo>::empty(),
    {
        self.entries.clear();
        assert(self.view() =~= Map::<Seq<char>, PlayerInfo>::empty());
    }
}

} // verus!
