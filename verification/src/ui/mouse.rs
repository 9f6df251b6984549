//! The mouse on the main screen: a left click selects in the sidebar or the
//! main list, or picks an entry of the context menu; a right click opens the
//! context menu where it was made; the wheel moves the selection.
use vstd::prelude::*;
use crate::ui::actions::{add_step, opens_download_menu, save_step};
use crate::ui::app::{ActiveBlock, App, AppMode, Command};
use crate::ui::components::{sat_add, Rect};
use crate::ui::keys::{below_max, unchanged};
use crate::ui::navigation::{step_down, step_up};

verus! {

/// What the mouse did.
#[derive(PartialEq, Eq, Structural, Clone, Copy)]
pub enum MouseKind {
    LeftDown,
    RightDown,
    ScrollUp,
    ScrollDown,
    Other,
}

/// A mouse event at the cell (`column`, `row`).
#[derive(PartialEq, Eq, Structural, Clone, Copy)]
pub struct MouseInput {
    pub kind: MouseKind,
    pub column: u16,
    pub row: u16,
}

/// The line of `y` counted from the line below `top` (0 above it).
pub open spec fn line_below(y: u16, top: u16) -> u16 {
    if y >= top + 1 {
        (y - (top + 1)) as u16
    } else {
        0
    }
}

/// The context menu opened at `pos`.
pub open spec fn menu_rect(pos: (u16, u16)) -> Rect {
    Rect { x: pos.0, y: pos.1, width: 20, height: 5 }
}

/// A click on line `line` of the context menu: the menu closes, and the
/// second line saves the selected video, the third opens the download menu
/// for it, the fourth adds it to a playlist.
#[verifier::opaque]
pub open spec fn menu_click(old: App, new: App, line: u16, r: Command) -> bool {
    let closed = App { show_context_menu: false, ..old };
    if line == 1 {
        save_step(closed, new, r)
    } else if line == 2 {
        opens_download_menu(closed, new) && r is Nothing
    } else if line == 3 {
        add_step(closed, new, r)
    } else {
        new == closed && r is Nothing
    }
}

/// A click on line `y` of the sidebar: the sidebar becomes active and the
/// entry on that line, if any, is selected; the context menu closes.
#[verifier::opaque]
pub open spec fn sidebar_click(old: App, new: App, y: u16) -> bool {
    let line = line_below(y, old.sidebar_area.y);
    new == App {
        show_context_menu: false,
        active_block: ActiveBlock::Sidebar,
        sidebar_selected: if line < (old.sidebar_items.len() as u16) {
            Some(line as usize)
        } else {
            old.sidebar_selected
        },
        ..old
    }
}

/// A click on line `y` of the main list: the list becomes active and the
/// entry on that line, if any, is selected; the context menu closes.
#[verifier::opaque]
pub open spec fn content_click(old: App, new: App, y: u16) -> bool {
    let line = line_below(y, old.content_area.y);
    new == App {
        show_context_menu: false,
        active_block: ActiveBlock::Content,
        list_selected: if line < (old.items.len() as u16) {
            Some(line as usize)
        } else {
            old.list_selected
        },
        ..old
    }
}

/// A click outside the context menu closes it; in the sidebar or the main
/// list it selects there (see `sidebar_click` and `content_click`).
pub open spec fn area_click(old: App, new: App, x: u16, y: u16, r: Command) -> bool {
    &&& r is Nothing
    &&& if old.sidebar_area.holds(x, y) {
        sidebar_click(old, new, y)
    } else if old.content_area.holds(x, y) {
        content_click(old, new, y)
    } else {
        new == App { show_context_menu: false, ..old }
    }
}

/// A left click at (`x`, `y`): on the open context menu it picks a line of
/// it, elsewhere it selects (see `menu_click` and `area_click`).
#[verifier::opaque]
pub open spec fn left_click_step(old: App, new: App, x: u16, y: u16, r: Command) -> bool {
    if old.show_context_menu && menu_rect(old.context_menu_pos).holds(x, y) {
        menu_click(old, new, line_below(y, old.context_menu_pos.1), r)
    } else {
        area_click(old, new, x, y, r)
    }
}

/// The wheel moves the selection of the sidebar or of the main list,
/// whichever is active, up or down.
#[verifier::opaque]
pub open spec fn wheel_step(old: App, new: App, up: bool) -> bool {
    if old.active_block == ActiveBlock::Sidebar {
        new == App {
            sidebar_selected: Some(
                if up {
                    step_up(old.sidebar_selected, old.sidebar_items@.len())
                } else {
                    step_down(old.sidebar_selected, old.sidebar_items@.len())
                },
            ),
            ..old
        }
    } else {
        new == App {
            list_selected: Some(
                if up {
                    step_up(old.list_selected, old.items@.len())
                } else {
                    step_down(old.list_selected, old.items@.len())
                },
            ),
            ..old
        }
    }
}

/// A right click opens the context menu at (`x`, `y`).
#[verifier::opaque]
pub open spec fn right_click_step(old: App, new: App, x: u16, y: u16) -> bool {
    new == App { show_context_menu: true, context_menu_pos: (x, y), ..old }
}

/// What a mouse event does: only the main screen takes the mouse.
pub open spec fn mouse_step(old: App, new: App, m: MouseInput, r: Command) -> bool {
    if old.mode != AppMode::Main {
        unchanged(old, new, r)
    } else {
        match m.kind {
            MouseKind::LeftDown => left_click_step(old, new, m.column, m.row, r),
            MouseKind::RightDown => right_click_step(old, new, m.column, m.row) && r is Nothing,
            MouseKind::ScrollUp => wheel_step(old, new, true) && r is Nothing,
            MouseKind::ScrollDown => wheel_step(old, new, false) && r is Nothing,
            MouseKind::Other => unchanged(old, new, r),
        }
    }
}

/// The mouse events that are handled without an arithmetic overflow or an
/// index outside a list.
pub open spec fn mouse_allowed(s: App, m: MouseInput) -> bool {
    s.mode == AppMode::Main ==> {
        &&& m.kind == MouseKind::ScrollUp ==> if s.active_block == ActiveBlock::Sidebar {
            s.sidebar_selected == Some(0usize) ==> s.sidebar_items@.len() > 0
        } else {
            s.list_selected == Some(0usize) ==> s.items@.len() > 0
        }
        &&& m.kind == MouseKind::ScrollDown ==> if s.active_block == ActiveBlock::Sidebar {
            s.sidebar_selected is Some ==> s.sidebar_items@.len() > 0
        } else {
            s.list_selected is Some ==> s.items@.len() > 0
        }
        &&& m.kind == MouseKind::ScrollDown ==> if s.active_block == ActiveBlock::Sidebar {
            below_max(s.sidebar_selected)
        } else {
            below_max(s.list_selected)
        }
    }
}

impl App {
    /// A mouse event (see `mouse_step`).
    pub fn handle_mouse(&mut self, m: MouseInput) -> (r: Command)
        requires
            mouse_allowed(*old(self), m),
        ensures
            mouse_step(*old(self), *final(self), m, r),
    {
        if self.mode != AppMode::Main {
            return Command::Nothing;
        }
        match m.kind {
            MouseKind::LeftDown => self.left_click(m.column, m.row),
            MouseKind::RightDown => {
                self.right_click(m.column, m.row);
                Command::Nothing
            },
            MouseKind::ScrollUp => {
                self.wheel(true);
                Command::Nothing
            },
            MouseKind::ScrollDown => {
                self.wheel(false);
                Command::Nothing
            },
            MouseKind::Other => Command::Nothing,
        }
    }

    /// A left click (see `left_click_step`).
    pub fn left_click(&mut self, x: u16, y: u16) -> (r: Command)
        ensures
            left_click_step(*old(self), *final(self), x, y, r),
    {
        proof {
            reveal(left_click_step);
        }
        if self.show_context_menu {
            let menu = Rect::new(self.context_menu_pos.0, self.context_menu_pos.1, 20, 5);
            if menu.contains(x, y) {
                let line = y.saturating_sub(self.context_menu_pos.1 + 1);
                return self.click_menu(line);
            }
        }
        self.click_areas(x, y)
    }

    /// A click on line `line` of the context menu (see `menu_click`).
    pub fn click_menu(&mut self, line: u16) -> (r: Command)
        ensures
            menu_click(*old(self), *final(self), line, r),
    {
        proof {
            reveal(menu_click);
        }
        self.show_context_menu = false;
        if line == 1 {
            self.trigger_save()
        } else if line == 2 {
            self.handle_download_shortcut();
            Command::Nothing
        } else if line == 3 {
            self.trigger_add_to_playlist()
        } else {
            Command::Nothing
        }
    }

    /// A click outside the context menu (see `area_click`).
    pub fn click_areas(&mut self, x: u16, y: u16) -> (r: Command)
        ensures
            area_click(*old(self), *final(self), x, y, r),
    {
        if self.sidebar_area.contains(x, y) {
            self.click_sidebar(y);
        } else if self.content_area.contains(x, y) {
            self.click_content(y);
        } else {
            self.show_context_menu = false;
        }
        Command::Nothing
    }

    fn click_sidebar(&mut self, y: u16)
        requires
            old(self).sidebar_area.y <= y < sat_add(old(self).sidebar_area.y, old(self).sidebar_area.height),
        ensures
            sidebar_click(*old(self), *final(self), y),
    {
        proof {
            reveal(sidebar_click);
        }
        self.show_context_menu = false;
        self.active_block = ActiveBlock::Sidebar;
        let line = y.saturating_sub(self.sidebar_area.y + 1);
        if line < self.sidebar_items.len() as u16 {
            self.sidebar_selected = Some(line as usize);
        }
    }

    fn click_content(&mut self, y: u16)
        requires
            old(self).content_area.y <= y < sat_add(old(self).content_area.y, old(self).content_area.height),
        ensures
            content_click(*old(self), *final(self), y),
    {
        proof {
            reveal(content_click);
        }
        self.show_context_menu = false;
        self.active_block = ActiveBlock::Content;
        let line = y.saturating_sub(self.content_area.y + 1);
        if line < self.items.len() as u16 {
            self.list_selected = Some(line as usize);
        }
    }

    /// A right click (see `right_click_step`).
    pub fn right_click(&mut self, x: u16, y: u16)
        ensures
            right_click_step(*old(self), *final(self), x, y),
    {
        proof {
            reveal(right_click_step);
        }
        self.show_context_menu = true;
        self.context_menu_pos = (x, y);
    }

    /// A turn of the wheel (see `wheel_step`).
    pub fn wheel(&mut self, up: bool)
        requires
            if old(self).active_block == ActiveBlock::Sidebar {
                (up && old(self).sidebar_selected == Some(0usize) ==> old(self).sidebar_items@.len() > 0)
                    && (!up ==> (old(self).sidebar_selected is Some ==> old(self).sidebar_items@.len() > 0)
                    && below_max(old(self).sidebar_selected))
            } else {
                (up && old(self).list_selected == Some(0usize) ==> old(self).items@.len() > 0) && (!up ==> (
                old(self).list_selected is Some ==> old(self).items@.len() > 0) && below_max(
                    old(self).list_selected,
                ))
            },
        ensures
            wheel_step(*old(self), *final(self), up),
    {
        proof {
            reveal(wheel_step);
        }
        if up {
            self.scroll_up();
        } else {
            self.scroll_down();
        }
    }
}

} // verus!
