//! The draggable, collapsible sidebar's bookkeeping, kept in whole pixels.
//! Two variants exist side by side in the interface: the main window's
//! sidebar, which collapses on its own when dragged narrow, and the widget
//! variant, which follows the pointer by its movement and collapses only on
//! a double click.

use vstd::prelude::*;

verus! {

/// `x` forced into `[lo, hi]`.
pub open spec fn clamp_int(x: int, lo: int, hi: int) -> int {
    if x < lo {
        lo
    } else if x > hi {
        hi
    } else {
        x
    }
}

/// The main window's sidebar: a width remembered across collapses, and a
/// drag that auto-collapses below a threshold.
pub struct SidebarState {
    /// Width while expanded.
    pub width: u32,
    /// The last width a drag established, restored on expand.
    pub last_width: u32,
    pub collapsed: bool,
    pub dragging: bool,
}

impl SidebarState {
    /// Both remembered widths stay between the collapse threshold and the
    /// maximum.
    pub open spec fn wf(&self) -> bool {
        150 <= self.width <= 360 && 150 <= self.last_width <= 360
    }

    /// The sidebar as the window opens: default width, expanded, at rest.
    pub fn new() -> (r: Self)
        ensures
            r.wf(),
            r.width == 240,
            r.last_width == 240,
            !r.collapsed,
            !r.dragging,
    {
        SidebarState { width: 240, last_width: 240, collapsed: false, dragging: false }
    }

    /// The pointer pressed the drag handle.
    pub fn start_drag(&mut self)
        requires
            old(self).wf(),
        ensures
            final(self).wf(),
            *final(self) == (SidebarState { dragging: true, ..*old(self) }),
    {
        self.dragging = true;
    }

    /// The pointer moved to column `x` during a drag: the width follows the
    /// pointer within bounds, and the sidebar collapses below the
    /// threshold.
    pub fn drag_to(&mut self, x: u32)
        requires
            old(self).wf(),
        ensures
            final(self).wf(),
            final(self).dragging == old(self).dragging,
            ({
                let clamped = clamp_int(x as int, 68, 360);
                if clamped < 150 {
                    final(self).collapsed && final(self).width == old(self).width && final(self).last_width == old(self).last_width
                } else {
                    !final(self).collapsed && final(self).width == clamped && final(self).last_width == clamped
                }
            }),
    {
        let clamped: u32 = if x < 68 {
            68
        } else if x > 360 {
            360
        } else {
            x
        };
        if clamped < 150 {
            self.collapsed = true;
        } else {
            self.collapsed = false;
            self.width = clamped;
            self.last_width = clamped;
        }
    }

    /// The pointer released at column `x`: one last width update, and the
    /// drag ends.
    pub fn end_drag(&mut self, x: u32)
        requires
            old(self).wf(),
        ensures
            final(self).wf(),
            !final(self).dragging,
            ({
                let clamped = clamp_int(x as int, 68, 360);
                if clamped < 150 {
                    final(self).collapsed && final(self).width == old(self).width && final(self).last_width == old(self).last_width
                } else {
                    !final(self).collapsed && final(self).width == clamped && final(self).last_width == clamped
                }
            }),
    {
        self.drag_to(x);
        self.dragging = false;
    }

    /// A double click flips the sidebar; expanding restores the remembered
    /// width, floored at the minimum.
    pub fn toggle_collapse(&mut self)
        requires
            old(self).wf(),
        ensures
            final(self).wf(),
            final(self).collapsed == !old(self).collapsed,
            final(self).dragging == old(self).dragging,
            final(self).last_width == old(self).last_width,
            old(self).collapsed ==> final(self).width as int == if old(self).last_width >= 180 {
                old(self).last_width as int
            } else {
                180int
            },
            !old(self).collapsed ==> final(self).width == old(self).width,
    {
        let next = !self.collapsed;
        self.collapsed = next;
        if !next {
            let restore = if self.last_width >= 180 {
                self.last_width
            } else {
                180
            };
            self.width = restore;
        }
    }

    /// The width the sidebar occupies right now: the icon strip when
    /// collapsed, the dragged width otherwise.
    pub fn current_width(&self) -> (r: u32)
        ensures
            r == if self.collapsed {
                68u32
            } else {
                self.width
            },
    {
        if self.collapsed {
            68
        } else {
            self.width
        }
    }
}

/// The widget variant of the sidebar: the drag follows the pointer's
/// movement rather than its position, and collapsing remembers the width
/// for the next expand.
pub struct PanelSidebar {
    /// Width while expanded.
    pub width: u32,
    pub collapsed: bool,
    pub dragging: bool,
    /// The pointer column at the last drag event.
    pub last_x: u32,
    /// The width remembered when the panel collapsed.
    pub saved_width: u32,
}

impl PanelSidebar {
    /// Both widths stay within the panel's bounds.
    pub open spec fn wf(&self) -> bool {
        160 <= self.width <= 420 && 160 <= self.saved_width <= 420
    }

    /// The panel as it first renders.
    pub fn new() -> (r: Self)
        ensures
            r.wf(),
            r.width == 220,
            !r.collapsed,
            !r.dragging,
            r.last_x == 0,
            r.saved_width == 220,
    {
        PanelSidebar { width: 220, collapsed: false, dragging: false, last_x: 0, saved_width: 220 }
    }

    /// A double click: collapsing remembers the width, expanding restores
    /// it within bounds.
    pub fn toggle_collapse(&mut self)
        requires
            old(self).wf(),
        ensures
            final(self).wf(),
            final(self).collapsed == !old(self).collapsed,
            final(self).dragging == old(self).dragging,
            final(self).last_x == old(self).last_x,
            old(self).collapsed ==> final(self).width as int == clamp_int(
                old(self).saved_width as int,
                160,
                420,
            ) && final(self).saved_width == old(self).saved_width,
            !old(self).collapsed ==> final(self).width == old(self).width && final(self).saved_width == old(self).width,
    {
        if self.collapsed {
            let w = if self.saved_width < 160 {
                160
            } else if self.saved_width > 420 {
                420
            } else {
                self.saved_width
            };
            self.width = w;
            self.collapsed = false;
        } else {
            self.saved_width = self.width;
            self.collapsed = true;
        }
    }

    /// The pointer pressed the handle at column `x`: the drag begins there.
    pub fn handle_down(&mut self, x: u32)
        requires
            old(self).wf(),
        ensures
            final(self).wf(),
            *final(self) == (PanelSidebar { dragging: true, last_x: x, ..*old(self) }),
    {
        self.dragging = true;
        self.last_x = x;
    }

    /// The pointer moved to column `x`: while dragging and expanded, the
    /// width moves by the pointer's movement, within bounds.
    pub fn pointer_move(&mut self, x: u32)
        requires
            old(self).wf(),
        ensures
            final(self).wf(),
            final(self).collapsed == old(self).collapsed,
            final(self).dragging == old(self).dragging,
            final(self).saved_width == old(self).saved_width,
            (old(self).dragging && !old(self).collapsed) ==> final(self).last_x == x && final(self).width as int == clamp_int(
                old(self).width + x - old(self).last_x,
                160,
                420,
            ),
            !(old(self).dragging && !old(self).collapsed) ==> final(self).last_x == old(
                self,
            ).last_x && final(self).width == old(self).width,
    {
        if self.dragging && !self.collapsed {
            let moved: i64 = (self.width as i64) + (x as i64) - (self.last_x as i64);
            self.last_x = x;
            let new_w: u32 = if moved < 160 {
                160
            } else if moved > 420 {
                420
            } else {
                moved as u32
            };
            self.width = new_w;
        }
    }

    /// The pointer released: the drag ends.
    pub fn pointer_up(&mut self)
        requires
            old(self).wf(),
        ensures
            final(self).wf(),
            *final(self) == (PanelSidebar { dragging: false, ..*old(self) }),
    {
        if self.dragging {
            self.dragging = false;
        }
    }

    /// The width the panel occupies right now: the icon strip when
    /// collapsed, the dragged width otherwise.
    pub fn current_width(&self) -> (r: u32)
        ensures
            r == if self.collapsed {
                56u32
            } else {
                self.width
            },
    {
        if self.collapsed {
            56
        } else {
            self.width
        }
    }
}

} // verus!
