//! Moving the selection of a list with the arrow keys and the mouse wheel:
//! up and down wrap around the ends of the list.
use vstd::prelude::*;
use vstd::arithmetic::div_mod::{lemma_add_mod_noop, lemma_small_mod};
use crate::ui::app::{ActiveBlock, App};

verus! {

/// The selection after moving up in a list of `len` entries: the previous
/// entry, the last one from the first (none of an empty list stays at 0),
/// and the first when nothing was selected.
pub open spec fn step_up(sel: Option<usize>, len: nat) -> usize {
    match sel {
        Some(i) => if i == 0 {
            if len == 0 {
                0
            } else {
                (len - 1) as usize
            }
        } else {
            (i - 1) as usize
        },
        None => 0,
    }
}

/// The selection after moving down in a list of `len` entries: the next
/// entry, the first one after the last, and the first when nothing was
/// selected.
pub open spec fn step_down(sel: Option<usize>, len: nat) -> usize {
    match sel {
        Some(i) => ((i + 1) % (if len == 0 {
            1
        } else {
            len as int
        })) as usize,
        None => 0,
    }
}

pub fn up_from(sel: Option<usize>, len: usize) -> (r: usize)
    ensures
        r == step_up(sel, len as nat),
{
    match sel {
        Some(i) => if i == 0 {
            len.saturating_sub(1)
        } else {
            i - 1
        },
        None => 0,
    }
}

pub fn down_from(sel: Option<usize>, len: usize) -> (r: usize)
    ensures
        r == step_down(sel, len as nat),
{
    match sel {
        Some(i) => {
            let m: usize = if len == 0 {
                1
            } else {
                len
            };
            proof {
                lemma_add_mod_noop(i as int, 1, m as int);
            }
            if m == 1 {
                assert((i + 1) % 1 == 0) by (nonlinear_arith);
                0
            } else {
                proof {
                    lemma_small_mod(1, m as nat);
                }
                (i % m + 1) % m
            }
        },
        None => 0,
    }
}

/// Moving down undoes moving up, within a list.
pub proof fn lemma_down_undoes_up(i: usize, len: nat)
    requires
        i < len,
        len <= usize::MAX,
    ensures
        step_down(Some(step_up(Some(i), len)), len) == i,
{
    if i == 0 {
        assert(((len - 1) + 1) % (len as int) == 0) by (nonlinear_arith)
            requires
                len > 0,
        ;
    } else {
        lemma_small_mod(i as nat, len);
    }
}

/// Moving up undoes moving down, within a list.
pub proof fn lemma_up_undoes_down(i: usize, len: nat)
    requires
        i < len,
        len <= usize::MAX,
    ensures
        step_up(Some(step_down(Some(i), len)), len) == i,
{
    if i + 1 == len {
        assert((len as int) % (len as int) == 0) by (nonlinear_arith)
            requires
                len > 0,
        ;
    } else {
        lemma_small_mod((i + 1) as nat, len);
    }
}

/// Moving either way keeps the selection inside a non-empty list.
pub proof fn lemma_steps_stay_inside(sel: Option<usize>, len: nat)
    requires
        len > 0,
        len <= usize::MAX,
        sel matches Some(i) ==> i < len,
    ensures
        step_up(sel, len) < len,
        step_down(sel, len) < len,
{
    if let Some(i) = sel {
        assert((i + 1) % (len as int) < len) by (nonlinear_arith)
            requires
                len > 0,
        ;
    }
}

impl App {
    /// The history list moves up.
    pub fn scroll_history_up(&mut self)
        ensures
            *final(self) == (App {
                history_selected: Some(step_up(old(self).history_selected, old(self).history_results@.len())),
                ..*old(self)
            }),
    {
        self.history_selected = Some(up_from(self.history_selected, self.history_results.len()));
    }

    /// The history list moves down.
    pub fn scroll_history_down(&mut self)
        requires
            old(self).history_selected != Some(usize::MAX),
        ensures
            *final(self) == (App {
                history_selected: Some(step_down(old(self).history_selected, old(self).history_results@.len())),
                ..*old(self)
            }),
    {
        self.history_selected = Some(down_from(self.history_selected, self.history_results.len()));
    }

    /// The list of playlists moves up.
    pub fn scroll_playlist_up(&mut self)
        ensures
            *final(self) == (App {
                playlist_selected: Some(step_up(old(self).playlist_selected, old(self).playlist_results@.len())),
                ..*old(self)
            }),
    {
        self.playlist_selected = Some(up_from(self.playlist_selected, self.playlist_results.len()));
    }

    /// The list of playlists moves down.
    pub fn scroll_playlist_down(&mut self)
        requires
            old(self).playlist_selected != Some(usize::MAX),
        ensures
            *final(self) == (App {
                playlist_selected: Some(
                    step_down(old(self).playlist_selected, old(self).playlist_results@.len()),
                ),
                ..*old(self)
            }),
    {
        self.playlist_selected = Some(down_from(self.playlist_selected, self.playlist_results.len()));
    }

    /// The videos of the open playlist move up.
    pub fn scroll_playlist_videos_up(&mut self)
        ensures
            *final(self) == (App {
                playlist_videos_selected: Some(
                    step_up(old(self).playlist_videos_selected, old(self).playlist_videos@.len()),
                ),
                ..*old(self)
            }),
    {
        self.playlist_videos_selected = Some(
            up_from(self.playlist_videos_selected, self.playlist_videos.len()),
        );
    }

    /// The videos of the open playlist move down.
    pub fn scroll_playlist_videos_down(&mut self)
        requires
            old(self).playlist_videos_selected != Some(usize::MAX),
        ensures
            *final(self) == (App {
                playlist_videos_selected: Some(
                    step_down(old(self).playlist_videos_selected, old(self).playlist_videos@.len()),
                ),
                ..*old(self)
            }),
    {
        self.playlist_videos_selected = Some(
            down_from(self.playlist_videos_selected, self.playlist_videos.len()),
        );
    }

    /// The sidebar or the main list, whichever is active, moves up.
    pub fn scroll_up(&mut self)
        requires
            old(self).active_block == ActiveBlock::Sidebar && old(self).sidebar_selected == Some(0usize)
                ==> old(self).sidebar_items@.len() > 0,
            old(self).active_block == ActiveBlock::Content && old(self).list_selected == Some(0usize)
                ==> old(self).items@.len() > 0,
        ensures
            old(self).active_block == ActiveBlock::Sidebar ==> *final(self) == (App {
                sidebar_selected: Some(step_up(old(self).sidebar_selected, old(self).sidebar_items@.len())),
                ..*old(self)
            }),
            old(self).active_block == ActiveBlock::Content ==> *final(self) == (App {
                list_selected: Some(step_up(old(self).list_selected, old(self).items@.len())),
                ..*old(self)
            }),
    {
        if self.active_block == ActiveBlock::Sidebar {
            self.sidebar_selected = Some(up_from(self.sidebar_selected, self.sidebar_items.len()));
        } else {
            self.list_selected = Some(up_from(self.list_selected, self.items.len()));
        }
    }

    /// The sidebar or the main list, whichever is active, moves down.
    pub fn scroll_down(&mut self)
        requires
            old(self).active_block == ActiveBlock::Sidebar && old(self).sidebar_selected is Some
                ==> old(self).sidebar_items@.len() > 0 && old(self).sidebar_selected != Some(usize::MAX),
            old(self).active_block == ActiveBlock::Content && old(self).list_selected is Some
                ==> old(self).items@.len() > 0 && old(self).list_selected != Some(usize::MAX),
        ensures
            old(self).active_block == ActiveBlock::Sidebar ==> *final(self) == (App {
                sidebar_selected: Some(step_down(old(self).sidebar_selected, old(self).sidebar_items@.len())),
                ..*old(self)
            }),
            old(self).active_block == ActiveBlock::Content ==> *final(self) == (App {
                list_selected: Some(step_down(old(self).list_selected, old(self).items@.len())),
                ..*old(self)
            }),
    {
        if self.active_block == ActiveBlock::Sidebar {
            self.sidebar_selected = Some(down_from(self.sidebar_selected, self.sidebar_items.len()));
        } else {
            self.list_selected = Some(down_from(self.list_selected, self.items.len()));
        }
    }
}

} // verus!
