//! Placement, focus and grabs of floating windows.
//!
//! The stack of windows is listed from bottom to top, and each window carries what
//! its shell reports of it.

use crate::geometry::{
    anchor, anchored, cascade, constrain, constrained_location, edges_of, initial_location,
    resize_size, resized, room_for_decorations, room_to_anchor, room_to_constrain, usable,
    window_output_geometry, DecorationAction, Dragged, Edges, Layout, Point, Rect, Size,
};
use vstd::prelude::*;

verus! {

#[derive(Clone, Copy, Debug, PartialEq, Eq, Structural)]
pub struct WindowId {
    pub id: u64,
}

/// The ways in which a window can fill the output.
#[derive(Clone, Copy, Debug, PartialEq, Eq, Structural)]
pub struct Modes {
    pub maximized: bool,
    pub fullscreen: bool,
}

#[derive(Clone, Copy, Debug, PartialEq, Eq, Structural)]
pub enum ExpandedMode {
    Maximized,
    Fullscreen,
}

impl Modes {
    pub open spec fn spec_expanded(self) -> bool {
        self.maximized || self.fullscreen
    }

    pub open spec fn spec_has(self, mode: ExpandedMode) -> bool {
        match mode {
            ExpandedMode::Maximized => self.maximized,
            ExpandedMode::Fullscreen => self.fullscreen,
        }
    }

    pub open spec fn spec_with(self, mode: ExpandedMode, enabled: bool) -> Self {
        match mode {
            ExpandedMode::Maximized => Modes { maximized: enabled, fullscreen: self.fullscreen },
            ExpandedMode::Fullscreen => Modes { maximized: self.maximized, fullscreen: enabled },
        }
    }

    pub fn expanded(self) -> (r: bool)
        ensures
            r == self.spec_expanded(),
    {
        self.maximized || self.fullscreen
    }

    pub fn with(self, mode: ExpandedMode, enabled: bool) -> (r: Self)
        ensures
            r == self.spec_with(mode, enabled),
    {
        match mode {
            ExpandedMode::Maximized => Modes { maximized: enabled, fullscreen: self.fullscreen },
            ExpandedMode::Fullscreen => Modes { maximized: self.maximized, fullscreen: enabled },
        }
    }
}

/// What the shell that a window belongs to reports of it.
#[derive(Clone, Copy, Debug, PartialEq, Eq, Structural)]
pub enum Shell {
    /// A Wayland toplevel; `server_side` when the server was asked to decorate it.
    Toplevel { server_side: bool, modes: Modes },
    /// An X11 window; `framed` when it draws its own decorations.
    X11 { override_redirect: bool, framed: bool, modes: Modes },
    /// A window of neither kind.
    Other,
}

impl Shell {
    pub open spec fn spec_modes(self) -> Modes {
        match self {
            Shell::Toplevel { modes, .. } => modes,
            Shell::X11 { modes, .. } => modes,
            Shell::Other => Modes { maximized: false, fullscreen: false },
        }
    }

    pub open spec fn spec_decorated(self) -> bool {
        match self {
            Shell::Toplevel { server_side, modes } => server_side && !modes.fullscreen,
            Shell::X11 { override_redirect, framed, modes } => !override_redirect && !framed
                && !modes.fullscreen,
            Shell::Other => false,
        }
    }

    pub open spec fn spec_override_redirect(self) -> bool {
        self matches Shell::X11 { override_redirect, .. } && override_redirect
    }

    pub fn modes(self) -> (r: Modes)
        ensures
            r == self.spec_modes(),
    {
        match self {
            Shell::Toplevel { modes, .. } => modes,
            Shell::X11 { modes, .. } => modes,
            Shell::Other => Modes { maximized: false, fullscreen: false },
        }
    }

    /// Whether the compositor draws the window's decorations.
    pub fn decorated(self) -> (r: bool)
        ensures
            r == self.spec_decorated(),
    {
        match self {
            Shell::Toplevel { server_side, modes } => server_side && !modes.fullscreen,
            Shell::X11 { override_redirect, framed, modes } => !override_redirect && !framed
                && !modes.fullscreen,
            Shell::Other => false,
        }
    }

    /// Whether the window places itself, as X11 menus and tooltips do.
    pub fn override_redirect(self) -> (r: bool)
        ensures
            r == self.spec_override_redirect(),
    {
        match self {
            Shell::X11 { override_redirect, .. } => override_redirect,
            Shell::Toplevel { .. } => false,
            Shell::Other => false,
        }
    }
}

/// One window of the stack.
#[derive(Clone, Copy, Debug, PartialEq, Eq, Structural)]
pub struct StackedWindow {
    pub id: WindowId,
    pub shell: Shell,
    pub mapped: bool,
    pub location: Option<Point>,
    pub size: Size,
}

/// A resize in progress: the edges that move, the window's rectangle at its start,
/// and the serial of the configure that ends it, once that was sent.
#[derive(Clone, Copy, Debug, PartialEq, Eq, Structural)]
pub struct Resize {
    pub edges: Edges,
    pub initial: Rect,
    pub final_serial: Option<u32>,
}

/// What the compositor remembers of a window.
#[derive(Clone, Copy, Debug, PartialEq, Eq, Structural)]
pub struct WindowState {
    pub mapped: bool,
    pub restore: Option<Rect>,
    pub resize: Option<Resize>,
}

impl Default for WindowState {
    fn default() -> (r: Self)
        ensures
            r == (WindowState { mapped: false, restore: None, resize: None }),
    {
        WindowState { mapped: false, restore: None, resize: None }
    }
}

/// What a client's commit did to its window.
#[derive(Clone, Copy, Debug, PartialEq, Eq, Structural)]
pub struct SurfaceCommit {
    /// Whether the surface has a buffer after the commit.
    pub has_buffer: bool,
    /// Whether the bounding box changed its size.
    pub bounds_changed: bool,
    /// The size of the window after the commit.
    pub size: Size,
    pub toplevel: bool,
    /// Whether the client has acknowledged the configure that ends its resize.
    pub acknowledged: bool,
}

/// How a commit changes the keyboard focus.
#[derive(Clone, Copy, Debug, PartialEq, Eq, Structural)]
pub enum CommitFocus {
    Keep,
    /// The window appeared and takes the focus.
    Take,
    /// The window disappeared and gives the focus up.
    Release,
}

#[derive(Clone, Copy, Debug, PartialEq, Eq, Structural)]
pub struct CommitPlan {
    /// Where a resized window goes.
    pub location: Option<Point>,
    /// Whether the window is brought back onto the output.
    pub constrain: bool,
    pub focus: CommitFocus,
}

impl WindowState {
    pub open spec fn room_to_commit(self, size: Size) -> bool {
        self.resize matches Some(resize) ==> room_to_anchor(resize.initial, size, resize.edges)
    }

    pub open spec fn committed(self, commit: SurfaceCommit) -> Self {
        let finished = commit.toplevel && commit.acknowledged && (self.resize matches Some(resize)
            && resize.final_serial is Some);
        WindowState {
            mapped: commit.has_buffer,
            restore: self.restore,
            resize: if finished || (self.mapped && !commit.has_buffer) {
                None
            } else {
                self.resize
            },
        }
    }

    pub open spec fn commit_plan(self, commit: SurfaceCommit) -> CommitPlan {
        CommitPlan {
            location: match self.resize {
                Some(resize) => Some(anchored(resize.initial, commit.size, resize.edges)),
                None => None,
            },
            constrain: commit.has_buffer && (!self.mapped || commit.bounds_changed)
                && self.resize is None,
            focus: if commit.has_buffer && !self.mapped {
                CommitFocus::Take
            } else if self.mapped && !commit.has_buffer {
                CommitFocus::Release
            } else {
                CommitFocus::Keep
            },
        }
    }

    /// Takes a client's commit in. A resized window moves only now, so that the
    /// edge opposite to the dragged one stays in place for slow clients. A window
    /// that grew is brought back onto the output, unless a resize holds its anchor.
    pub fn commit(&mut self, commit: SurfaceCommit) -> (plan: CommitPlan)
        requires
            old(self).room_to_commit(commit.size),
        ensures
            *final(self) == old(self).committed(commit),
            plan == old(self).commit_plan(commit),
    {
        let resizing: bool = self.resize.is_some();
        let location: Option<Point> = match self.resize {
            Some(resize) => {
                if resize.final_serial.is_some() && commit.toplevel && commit.acknowledged {
                    self.resize = None;
                }
                Some(anchor(resize.initial, commit.size, resize.edges))
            },
            None => None,
        };
        let previous: bool = self.mapped;
        self.mapped = commit.has_buffer;
        let focus: CommitFocus = if commit.has_buffer && !previous {
            CommitFocus::Take
        } else if previous && !commit.has_buffer {
            self.unmap();
            CommitFocus::Release
        } else {
            CommitFocus::Keep
        };
        CommitPlan {
            location,
            constrain: commit.has_buffer && (!previous || commit.bounds_changed) && !resizing,
            focus,
        }
    }

    pub open spec fn unmapped(self) -> Self {
        WindowState { mapped: false, resize: None, ..self }
    }

    /// The state once a pointer grab has begun.
    pub open spec fn grabbed(self, edges: Option<Edges>, initial: Rect) -> Self {
        WindowState {
            resize: match edges {
                Some(edges) => Some(Resize { edges, initial, final_serial: None }),
                None => None,
            },
            ..self
        }
    }

    /// The state once a resize grab has ended with a last configure.
    pub open spec fn let_go(self, serial: u32) -> Self {
        WindowState {
            resize: match self.resize {
                Some(resize) => Some(Resize { final_serial: Some(serial), ..resize }),
                None => None,
            },
            ..self
        }
    }

    /// Forgets what only a mapped window has.
    pub fn unmap(&mut self)
        ensures
            final(self).mapped == false,
            final(self).resize is None,
            final(self).restore == old(self).restore,
            *final(self) == old(self).unmapped(),
    {
        self.mapped = false;
        self.resize = None;
    }

    /// Starts a pointer grab that moves the window, or resizes it where `edges` says
    /// which of its edges follow the pointer.
    pub fn begin_grab(&mut self, edges: Option<Edges>, initial: Rect)
        ensures
            final(self).mapped == old(self).mapped,
            final(self).restore == old(self).restore,
            final(self).resize == match edges {
                Some(edges) => Some(Resize { edges, initial, final_serial: None }),
                None => None,
            },
            *final(self) == old(self).grabbed(edges, initial),
    {
        self.resize = match edges {
            Some(edges) => Some(Resize { edges, initial, final_serial: None }),
            None => None,
        };
    }

    /// Ends a resize grab: the resize lasts until the client has acknowledged the
    /// configure with this serial.
    pub fn end_resize_grab(&mut self, serial: u32)
        ensures
            final(self).mapped == old(self).mapped,
            final(self).restore == old(self).restore,
            final(self).resize == match old(self).resize {
                Some(resize) => Some(
                    Resize {
                        edges: resize.edges,
                        initial: resize.initial,
                        final_serial: Some(serial),
                    },
                ),
                None => None,
            },
            *final(self) == old(self).let_go(serial),
    {
        if let Some(resize) = self.resize {
            self.resize = Some(
                Resize { edges: resize.edges, initial: resize.initial, final_serial: Some(serial) },
            );
        }
    }

    pub open spec fn expanded_geometry(self, expanded: bool, current: Rect, area: Rect) -> Rect {
        if expanded {
            area
        } else {
            match self.restore {
                Some(saved) => saved,
                None => current,
            }
        }
    }

    pub open spec fn expanded_state(self, expanded: bool, current: Rect) -> Self {
        WindowState {
            mapped: self.mapped,
            restore: if expanded {
                match self.restore {
                    Some(saved) => Some(saved),
                    None => Some(current),
                }
            } else {
                None
            },
            resize: None,
        }
    }

    /// Turns one of the modes of a toplevel on or off and says which modes it has
    /// then and where it goes: an expanded window fills its part of the output, and
    /// one that no longer is returns to where it was before it was first expanded.
    pub fn set_expanded(
        &mut self,
        server_side: bool,
        modes: Modes,
        mode: ExpandedMode,
        enabled: bool,
        current: Rect,
        output: Rect,
    ) -> (r: (Modes, Rect))
        requires
            room_for_decorations(output),
        ensures
            r.0 == modes.spec_with(mode, enabled),
            r.1 == old(self).expanded_geometry(
                r.0.spec_expanded(),
                current,
                usable(output, Shell::Toplevel { server_side, modes: r.0 }.spec_decorated()),
            ),
            *final(self) == old(self).expanded_state(r.0.spec_expanded(), current),
    {
        let modes: Modes = modes.with(mode, enabled);
        let area: Rect = window_output_geometry(
            output,
            Shell::Toplevel { server_side, modes }.decorated(),
        );
        self.resize = None;
        let geometry: Rect = if modes.expanded() {
            if self.restore.is_none() {
                self.restore = Some(current);
            }
            area
        } else {
            let saved: Rect = match self.restore {
                Some(saved) => saved,
                None => current,
            };
            self.restore = None;
            saved
        };
        (modes, geometry)
    }
}

/// However a window was expanded in between, turning its modes off again brings
/// back the rectangle that it had before the first of them.
pub proof fn law_unexpanding_restores_the_window(
    state: WindowState,
    original: Rect,
    between: Seq<(bool, Rect)>,
    last: Rect,
    area: Rect,
)
    requires
        state.restore is None,
        forall|i: int| 0 <= i < between.len() ==> (#[trigger] between[i]).0,
    ensures
        ({
            let expanded = after_expansions(state.expanded_state(true, original), between);
            &&& expanded.expanded_geometry(false, last, area) == original
            &&& expanded.expanded_state(false, last).restore is None
        }),
{
    lemma_restore_survives(state.expanded_state(true, original), between);
}

/// The window's state after further changes that leave it expanded or not, each at
/// the rectangle that the window then has.
pub open spec fn after_expansions(state: WindowState, changes: Seq<(bool, Rect)>) -> WindowState
    decreases changes.len(),
{
    if changes.len() == 0 {
        state
    } else {
        let last = changes.last();
        after_expansions(state, changes.drop_last()).expanded_state(last.0, last.1)
    }
}

proof fn lemma_restore_survives(state: WindowState, changes: Seq<(bool, Rect)>)
    requires
        state.restore is Some,
        forall|i: int| 0 <= i < changes.len() ==> (#[trigger] changes[i]).0,
    ensures
        after_expansions(state, changes).restore == state.restore,
    decreases changes.len(),
{
    if changes.len() > 0 {
        let earlier = changes.drop_last();
        assert forall|i: int| 0 <= i < earlier.len() implies (#[trigger] earlier[i]).0 by {
            assert(earlier[i] == changes[i]);
        }
        lemma_restore_survives(state, earlier);
        assert(changes.last() == changes[changes.len() - 1]);
    }
}

/// What a zoom of an X11 window saves and where the window goes after its modes
/// have changed.
pub open spec fn zoom_saves(
    saved: Option<Rect>,
    before: Modes,
    enabled: bool,
    last_configure: Rect,
) -> Option<Rect> {
    if enabled && !before.spec_expanded() {
        Some(last_configure)
    } else {
        saved
    }
}

/// Whether a request to turn a mode of an X11 window on or off changes anything.
pub fn zoom_changes(modes: Modes, mode: ExpandedMode, enabled: bool) -> (r: bool)
    ensures
        r == (modes.spec_has(mode) != enabled),
        r == (modes.spec_with(mode, enabled) != modes),
{
    match mode {
        ExpandedMode::Maximized => modes.maximized != enabled,
        ExpandedMode::Fullscreen => modes.fullscreen != enabled,
    }
}

/// Where an X11 window goes after its modes have changed, and what stays saved.
pub open spec fn zoom_result(
    saved: Option<Rect>,
    before: Modes,
    after: Modes,
    enabled: bool,
    last_configure: Rect,
    area: Option<Rect>,
) -> (Option<Rect>, Option<Rect>) {
    let kept = zoom_saves(saved, before, enabled, last_configure);
    if after.spec_expanded() {
        (area, kept)
    } else {
        (kept, None)
    }
}

/// Places an X11 window whose modes went from `before` to `after`: an expanded one
/// fills its area, if it is in the stack, and one that no longer is returns to the
/// rectangle that was saved when it was expanded, if one was.
pub fn zoomed(
    saved: &mut Option<Rect>,
    before: Modes,
    after: Modes,
    enabled: bool,
    last_configure: Rect,
    area: Option<Rect>,
) -> (geometry: Option<Rect>)
    ensures
        ({
            let kept = zoom_saves(*old(saved), before, enabled, last_configure);
            if after.spec_expanded() {
                geometry == area && *final(saved) == kept
            } else {
                geometry == kept && *final(saved) is None
            }
        }),
        (geometry, *final(saved)) == zoom_result(
            *old(saved),
            before,
            after,
            enabled,
            last_configure,
            area,
        ),
{
    if enabled && !before.expanded() {
        *saved = Some(last_configure);
    }
    if after.expanded() {
        area
    } else {
        let geometry: Option<Rect> = *saved;
        *saved = None;
        geometry
    }
}

/// An X11 window that is expanded by one mode returns, when that mode is turned
/// off, to the rectangle that it had.
pub proof fn law_unzoom_restores_the_window(
    saved: Option<Rect>,
    before: Modes,
    mode: ExpandedMode,
    original: Rect,
    last: Rect,
)
    requires
        !before.spec_expanded(),
    ensures
        zoom_saves(
            zoom_saves(saved, before, true, original),
            before.spec_with(mode, true),
            false,
            last,
        ) == Some(original),
        !before.spec_with(mode, true).spec_with(mode, false).spec_expanded(),
{
}

/// Whether a window can take the focus: it is mapped, it is not the one that gives
/// the focus up, and, where `managed` is asked for, it does not place itself.
pub open spec fn focusable(window: StackedWindow, leaving: Option<WindowId>, managed: bool) -> bool {
    &&& window.mapped
    &&& leaving != Some(window.id)
    &&& managed ==> !window.shell.spec_override_redirect()
}

/// The topmost window that can take the focus.
pub open spec fn topmost(stack: Seq<StackedWindow>, leaving: Option<WindowId>, managed: bool) ->
    Option<WindowId>
    decreases stack.len(),
{
    if stack.len() == 0 {
        None
    } else if focusable(stack.last(), leaving, managed) {
        Some(stack.last().id)
    } else {
        topmost(stack.drop_last(), leaving, managed)
    }
}

fn find_topmost(stack: &Vec<StackedWindow>, leaving: Option<WindowId>, managed: bool) -> (r: Option<
    WindowId,
>)
    ensures
        r == topmost(stack@, leaving, managed),
{
    let mut index: usize = stack.len();
    assert(stack@.take(index as int) == stack@);
    while index > 0
        invariant
            index <= stack.len(),
            topmost(stack@.take(index as int), leaving, managed) == topmost(
                stack@,
                leaving,
                managed,
            ),
        decreases index,
    {
        let ghost above = stack@.take(index as int);
        index = index - 1;
        let window: StackedWindow = stack[index];
        assert(above.drop_last() == stack@.take(index as int));
        assert(above.last() == window);
        let leaves: bool = match leaving {
            Some(id) => id == window.id,
            None => false,
        };
        if window.mapped && !leaves && !(managed && window.shell.override_redirect()) {
            return Some(window.id);
        }
    }
    None
}

/// Whether the focus moves when a window disappears, and where to.
pub open spec fn unmap_focus(
    stack: Seq<StackedWindow>,
    window: WindowId,
    focused: Option<WindowId>,
) -> Option<Option<WindowId>> {
    if focused == Some(window) {
        Some(topmost(stack, Some(window), true))
    } else {
        None
    }
}

/// Whether the focus moves when what had it may have died, and where to.
pub open spec fn death_focus(stack: Seq<StackedWindow>, focus_alive: Option<bool>) -> Option<
    Option<WindowId>,
> {
    if focus_alive == Some(false) {
        Some(topmost(stack, None, false))
    } else {
        None
    }
}

/// The focus that follows when a window disappears: nothing changes unless that
/// window was focused; else the topmost other mapped window takes the focus, but
/// for windows that place themselves, or no window does.
pub fn focus_after_unmap(
    stack: &Vec<StackedWindow>,
    window: WindowId,
    focused: Option<WindowId>,
) -> (r: Option<Option<WindowId>>)
    ensures
        r == if focused == Some(window) {
            Some(topmost(stack@, Some(window), true))
        } else {
            None
        },
        r == unmap_focus(stack@, window, focused),
{
    let gives_up: bool = match focused {
        Some(id) => id == window,
        None => false,
    };
    if gives_up {
        Some(find_topmost(stack, Some(window), true))
    } else {
        None
    }
}

/// The focus that follows when the focused surface has died: the topmost mapped
/// window, if there is one. `None` while the focus is alive or absent.
pub fn focus_after_death(stack: &Vec<StackedWindow>, focus_alive: Option<bool>) -> (r: Option<
    Option<WindowId>,
>)
    ensures
        r == if focus_alive == Some(false) {
            Some(topmost(stack@, None, false))
        } else {
            None
        },
        r == death_focus(stack@, focus_alive),
{
    match focus_alive {
        Some(false) => Some(find_topmost(stack, None, false)),
        Some(true) => None,
        None => None,
    }
}

/// The focus goes to a mapped window of the stack and to no window that lies below
/// another one that could take it.
pub proof fn law_focus_goes_to_the_topmost_window(
    stack: Seq<StackedWindow>,
    leaving: Option<WindowId>,
    managed: bool,
)
    ensures
        match topmost(stack, leaving, managed) {
            Some(id) => exists|i: int|
                0 <= i < stack.len() && (#[trigger] stack[i]).id == id && focusable(
                    stack[i],
                    leaving,
                    managed,
                ) && forall|j: int|
                    i < j < stack.len() ==> !focusable(#[trigger] stack[j], leaving, managed),
            None => forall|j: int|
                0 <= j < stack.len() ==> !focusable(#[trigger] stack[j], leaving, managed),
        },
    decreases stack.len(),
{
    if stack.len() > 0 {
        let last = stack.len() - 1;
        if focusable(stack.last(), leaving, managed) {
            assert(stack[last].id == stack.last().id);
        } else {
            let below = stack.drop_last();
            law_focus_goes_to_the_topmost_window(below, leaving, managed);
            assert(forall|j: int| 0 <= j < below.len() ==> below[j] == stack[j]);
            match topmost(stack, leaving, managed) {
                Some(id) => {
                    let i = choose|i: int|
                        0 <= i < below.len() && (#[trigger] below[i]).id == id && focusable(
                            below[i],
                            leaving,
                            managed,
                        ) && forall|j: int|
                            i < j < below.len() ==> !focusable(#[trigger] below[j], leaving, managed);
                    assert(stack[i].id == id);
                    assert forall|j: int| i < j < stack.len() implies !focusable(
                        #[trigger] stack[j],
                        leaving,
                        managed,
                    ) by {
                        if j < below.len() {
                            assert(below[j] == stack[j]);
                        }
                    }
                },
                None => {
                    assert forall|j: int| 0 <= j < stack.len() implies !focusable(
                        #[trigger] stack[j],
                        leaving,
                        managed,
                    ) by {
                        if j < below.len() {
                            assert(below[j] == stack[j]);
                        }
                    }
                },
            }
        }
    }
}

/// What the keyboard is focused on: X11 windows negotiate their focus themselves.
#[derive(Clone, Copy, Debug, PartialEq, Eq, Structural)]
pub enum KeyboardFocus {
    Wayland(WindowId),
    X11(WindowId),
}

/// What one window is told when the focus moves.
#[derive(Clone, Copy, Debug, PartialEq, Eq, Structural)]
pub struct Activation {
    pub id: WindowId,
    pub activated: bool,
    /// Whether the window learns of it by a configure event.
    pub configure: bool,
}

/// What moving the focus takes.
#[derive(Debug)]
pub struct FocusPlan {
    /// The window that is put on top.
    pub raise: Option<WindowId>,
    /// Whether X11 has to be told of the new order.
    pub raise_x11: bool,
    pub activations: Vec<Activation>,
    pub keyboard: Option<KeyboardFocus>,
}

pub open spec fn activation(window: StackedWindow, focused: Option<WindowId>) -> Activation {
    Activation {
        id: window.id,
        activated: focused == Some(window.id),
        configure: window.shell is Toplevel,
    }
}

pub open spec fn activations(stack: Seq<StackedWindow>, focused: Option<WindowId>) -> Seq<
    Activation,
> {
    stack.map_values(|window: StackedWindow| activation(window, focused))
}

/// The keyboard focus of a window. A window of neither shell has one only through its
/// surface.
pub open spec fn keyboard_focus(window: StackedWindow, has_surface: bool) -> Option<KeyboardFocus> {
    if window.shell is X11 {
        Some(KeyboardFocus::X11(window.id))
    } else if has_surface {
        Some(KeyboardFocus::Wayland(window.id))
    } else {
        None
    }
}

/// Whether a plan moves the focus to a window, or away from all of them.
pub open spec fn moves_focus(
    plan: FocusPlan,
    stack: Seq<StackedWindow>,
    target: Option<StackedWindow>,
    has_surface: bool,
    x11_running: bool,
) -> bool {
    let focused = match target {
        Some(window) => Some(window.id),
        None => None,
    };
    &&& plan.raise == focused
    &&& plan.raise_x11 == (target matches Some(window) && x11_running && window.shell is X11)
    &&& plan.activations@ == activations(stack, focused)
    &&& plan.keyboard == match target {
        Some(window) => keyboard_focus(window, has_surface),
        None => None,
    }
}

/// Moves the focus to a window, which `has_surface` says of whether it has a Wayland
/// surface, or takes it away from all of them. The window is raised, every window
/// learns whether it is the active one, and the keyboard follows.
pub fn focus_window(
    stack: &Vec<StackedWindow>,
    target: Option<StackedWindow>,
    has_surface: bool,
    x11_running: bool,
) -> (plan: FocusPlan)
    ensures
        match target {
            Some(window) => {
                &&& plan.raise == Some(window.id)
                &&& plan.raise_x11 == (x11_running && window.shell is X11)
                &&& plan.activations@ == activations(stack@, Some(window.id))
                &&& plan.keyboard == keyboard_focus(window, has_surface)
            },
            None => {
                &&& plan.raise is None
                &&& !plan.raise_x11
                &&& plan.activations@ == activations(stack@, None)
                &&& plan.keyboard is None
            },
        },
        moves_focus(plan, stack@, target, has_surface, x11_running),
{
    let focused: Option<WindowId> = match target {
        Some(window) => Some(window.id),
        None => None,
    };
    let mut told: Vec<Activation> = Vec::new();
    let mut index: usize = 0;
    while index < stack.len()
        invariant
            index <= stack.len(),
            told@ == activations(stack@, focused).take(index as int),
        decreases stack.len() - index,
    {
        let window: StackedWindow = stack[index];
        let activated: bool = match focused {
            Some(id) => id == window.id,
            None => false,
        };
        let configure: bool = match window.shell {
            Shell::Toplevel { .. } => true,
            Shell::X11 { .. } => false,
            Shell::Other => false,
        };
        told.push(Activation { id: window.id, activated, configure });
        index = index + 1;
        assert(told@ =~= activations(stack@, focused).take(index as int));
    }
    assert(told@ =~= activations(stack@, focused));
    match target {
        Some(window) => {
            let x11: bool = match window.shell {
                Shell::X11 { .. } => true,
                Shell::Toplevel { .. } => false,
                Shell::Other => false,
            };
            FocusPlan {
                raise: focused,
                raise_x11: x11_running && x11,
                activations: told,
                keyboard: if x11 {
                    Some(KeyboardFocus::X11(window.id))
                } else if has_surface {
                    Some(KeyboardFocus::Wayland(window.id))
                } else {
                    None
                },
            }
        },
        None => FocusPlan { raise: None, raise_x11: false, activations: told, keyboard: None },
    }
}

/// The X11 windows of the stack, from bottom to top.
pub open spec fn x11_windows(stack: Seq<StackedWindow>) -> Seq<WindowId>
    decreases stack.len(),
{
    if stack.len() == 0 {
        Seq::empty()
    } else if stack.last().shell is X11 {
        x11_windows(stack.drop_last()).push(stack.last().id)
    } else {
        x11_windows(stack.drop_last())
    }
}

/// The order that X11 is told, so that it finds windows under the pointer as the
/// scene shows them.
pub fn x11_stacking(stack: &Vec<StackedWindow>) -> (order: Vec<WindowId>)
    ensures
        order@ == x11_windows(stack@),
{
    let mut order: Vec<WindowId> = Vec::new();
    let mut index: usize = 0;
    while index < stack.len()
        invariant
            index <= stack.len(),
            order@ == x11_windows(stack@.take(index as int)),
        decreases stack.len() - index,
    {
        let window: StackedWindow = stack[index];
        let ghost upto = stack@.take(index as int + 1);
        assert(upto.drop_last() =~= stack@.take(index as int));
        match window.shell {
            Shell::X11 { .. } => {
                order.push(window.id);
            },
            Shell::Toplevel { .. } => {},
            Shell::Other => {},
        }
        index = index + 1;
    }
    assert(stack@.take(index as int) =~= stack@);
    order
}

/// Of windows with identities of their own, the focused one is active and no other.
pub proof fn law_one_window_is_active(
    stack: Seq<StackedWindow>,
    focused: Option<WindowId>,
    i: int,
    j: int,
)
    requires
        0 <= i < stack.len(),
        0 <= j < stack.len(),
        forall|a: int, b: int|
            0 <= a < b < stack.len() ==> (#[trigger] stack[a]).id != (#[trigger] stack[b]).id,
    ensures
        activations(stack, focused)[i].activated <==> focused == Some(stack[i].id),
        activations(stack, focused)[i].activated && activations(stack, focused)[j].activated
            ==> i == j,
{
    if i < j {
        assert(stack[i].id != stack[j].id);
    } else if j < i {
        assert(stack[j].id != stack[i].id);
    }
}

/// Where a window goes and, for X11, the rectangle that it is told.
#[derive(Clone, Copy, Debug, PartialEq, Eq, Structural)]
pub struct Placement {
    pub location: Point,
    pub configure: Option<Rect>,
}

pub open spec fn constrained_placement(window: StackedWindow, output: Rect) -> Option<Placement> {
    match window.location {
        Some(location) if !window.shell.spec_override_redirect() => {
            let placed = constrained_location(
                location,
                window.size,
                usable(output, window.shell.spec_decorated()),
            );
            Some(
                Placement {
                    location: placed,
                    configure: if window.shell is X11 {
                        Some(Rect { loc: placed, size: window.size })
                    } else {
                        None
                    },
                },
            )
        },
        _ => None,
    }
}

/// Whether the window's area and its positions in it can be computed.
pub open spec fn room_to_place(window: StackedWindow, output: Rect) -> bool {
    &&& room_for_decorations(output)
    &&& room_to_constrain(window.size, usable(output, window.shell.spec_decorated()))
}

/// Brings a window back into its part of the output. Windows that place themselves
/// and windows outside the stack are left alone.
pub fn constrain_window(window: StackedWindow, output: Rect) -> (r: Option<Placement>)
    requires
        room_to_place(window, output),
    ensures
        r == constrained_placement(window, output),
{
    let location: Point = match window.location {
        Some(location) => location,
        None => return None,
    };
    if window.shell.override_redirect() {
        return None;
    }
    let area: Rect = window_output_geometry(output, window.shell.decorated());
    let placed: Point = constrain(location, window.size, area);
    let configure: Option<Rect> = match window.shell {
        Shell::X11 { .. } => Some(Rect { loc: placed, size: window.size }),
        Shell::Toplevel { .. } => None,
        Shell::Other => None,
    };
    Some(Placement { location: placed, configure })
}

/// What a change of the output does to one window.
#[derive(Clone, Copy, Debug, PartialEq, Eq, Structural)]
pub struct OutputChange {
    pub id: WindowId,
    /// The bounds that a toplevel is told.
    pub bounds: Option<Size>,
    /// The size that an expanded toplevel is told.
    pub size: Option<Size>,
    /// Where the window goes and what an X11 window is told.
    pub placement: Option<Placement>,
}

pub open spec fn output_change(window: StackedWindow, output: Rect) -> OutputChange {
    let area = usable(output, window.shell.spec_decorated());
    let expanded = window.shell.spec_modes().spec_expanded();
    OutputChange {
        id: window.id,
        bounds: if window.shell is Toplevel {
            Some(area.size)
        } else {
            None
        },
        size: if window.shell is Toplevel && expanded {
            Some(area.size)
        } else {
            None
        },
        placement: if expanded {
            Some(
                Placement {
                    location: area.loc,
                    configure: if window.shell is X11 {
                        Some(area)
                    } else {
                        None
                    },
                },
            )
        } else {
            constrained_placement(window, output)
        },
    }
}

/// Fits every window to an output that changed: expanded windows fill their part of
/// it again, the others are brought back onto it.
pub fn output_resized(stack: &Vec<StackedWindow>, output: Rect) -> (changes: Vec<OutputChange>)
    requires
        forall|i: int| 0 <= i < stack.len() ==> room_to_place(#[trigger] stack[i], output),
    ensures
        changes.len() == stack.len(),
        forall|i: int|
            0 <= i < stack.len() ==> #[trigger] changes[i] == output_change(stack[i], output),
{
    let mut changes: Vec<OutputChange> = Vec::new();
    let mut index: usize = 0;
    while index < stack.len()
        invariant
            index <= stack.len(),
            changes.len() == index,
            forall|i: int| 0 <= i < stack.len() ==> room_to_place(#[trigger] stack[i], output),
            forall|i: int|
                0 <= i < index ==> #[trigger] changes[i] == output_change(stack[i], output),
        decreases stack.len() - index,
    {
        let window: StackedWindow = stack[index];
        assert(room_to_place(stack[index as int], output));
        let area: Rect = window_output_geometry(output, window.shell.decorated());
        let expanded: bool = window.shell.modes().expanded();
        let toplevel: bool = match window.shell {
            Shell::Toplevel { .. } => true,
            Shell::X11 { .. } => false,
            Shell::Other => false,
        };
        let x11: bool = match window.shell {
            Shell::X11 { .. } => true,
            Shell::Toplevel { .. } => false,
            Shell::Other => false,
        };
        let placement: Option<Placement> = if expanded {
            Some(
                Placement {
                    location: area.loc,
                    configure: if x11 {
                        Some(area)
                    } else {
                        None
                    },
                },
            )
        } else {
            constrain_window(window, output)
        };
        changes.push(
            OutputChange {
                id: window.id,
                bounds: if toplevel {
                    Some(area.size)
                } else {
                    None
                },
                size: if toplevel && expanded {
                    Some(area.size)
                } else {
                    None
                },
                placement,
            },
        );
        index = index + 1;
    }
    changes
}

/// A window of the stack and whether one of its surfaces lies under the pointer.
#[derive(Clone, Copy, Debug, PartialEq, Eq, Structural)]
pub struct Probe {
    pub window: StackedWindow,
    pub covered: bool,
}

/// A decoration under the pointer.
#[derive(Clone, Copy, Debug, PartialEq, Eq, Structural)]
pub struct DecorationHit {
    pub window: WindowId,
    pub action: DecorationAction,
}

/// Whether the compositor draws decorations around the window at present.
pub open spec fn shows_decoration(window: StackedWindow) -> bool {
    &&& window.shell.spec_decorated()
    &&& window.size.w > 0
    &&& window.size.h > 0
    &&& window.mapped
}

pub fn draws_decoration(window: StackedWindow) -> (r: bool)
    ensures
        r == shows_decoration(window),
{
    window.shell.decorated() && !window.size.is_empty() && window.mapped
}

/// The decoration of the window under the pointer, if the window shows one there.
pub open spec fn own_hit(window: StackedWindow, location: Point, pointer: Point) -> Option<
    DecorationHit,
> {
    if shows_decoration(window) {
        match (Layout { size: window.size }).spec_hit(
            pointer.x - location.x,
            pointer.y - location.y,
        ) {
            Some(action) => Some(DecorationHit { window: window.id, action }),
            None => None,
        }
    } else {
        None
    }
}

/// The topmost decoration under the pointer that no surface above it covers. The
/// search ends at a window without a location.
pub open spec fn hit_in(stack: Seq<Probe>, pointer: Point) -> Option<DecorationHit>
    decreases stack.len(),
{
    if stack.len() == 0 {
        None
    } else {
        let top = stack.last();
        match top.window.location {
            None => None,
            Some(location) => if top.covered {
                None
            } else {
                match own_hit(top.window, location, pointer) {
                    Some(hit) => Some(hit),
                    None => hit_in(stack.drop_last(), pointer),
                }
            },
        }
    }
}

/// Finds the decoration under the pointer, given by its location rounded down.
pub fn decoration_under(stack: &Vec<Probe>, pointer: Point) -> (r: Option<DecorationHit>)
    ensures
        r == hit_in(stack@, pointer),
{
    let mut index: usize = stack.len();
    assert(stack@.take(index as int) == stack@);
    while index > 0
        invariant
            index <= stack.len(),
            hit_in(stack@.take(index as int), pointer) == hit_in(stack@, pointer),
        decreases index,
    {
        let ghost above = stack@.take(index as int);
        index = index - 1;
        let probe: Probe = stack[index];
        assert(above.drop_last() == stack@.take(index as int));
        assert(above.last() == probe);
        let location: Point = match probe.window.location {
            Some(location) => location,
            None => return None,
        };
        if probe.covered {
            return None;
        }
        if draws_decoration(probe.window) {
            let layout: Layout = Layout { size: probe.window.size };
            let x: i64 = pointer.x as i64 - location.x as i64;
            let y: i64 = pointer.y as i64 - location.y as i64;
            if let Some(action) = layout.hit(x, y) {
                return Some(DecorationHit { window: probe.window.id, action });
            }
        }
    }
    None
}

/// A surface over a decoration hides it from the pointer: while the topmost window
/// is under the pointer with one of its surfaces, no decoration is hit.
pub proof fn law_surfaces_hide_decorations(stack: Seq<Probe>, pointer: Point)
    requires
        stack.len() > 0,
        stack.last().covered,
    ensures
        hit_in(stack, pointer) is None,
{
}

/// The pointer's hold on the decorations: the window whose close button is pressed.
#[derive(Clone, Copy, Debug, PartialEq, Eq, Structural)]
pub struct DecorationPress {
    pub window: Option<WindowId>,
}

impl DecorationPress {
    pub open spec fn kept(self, hit: Option<DecorationHit>) -> Self {
        match self.window {
            Some(window) if hit == Some(
                DecorationHit { window, action: DecorationAction::Close },
            ) => self,
            _ => DecorationPress { window: None },
        }
    }

    pub open spec fn hovered(self, hit: Option<DecorationHit>, pointer_free: bool) -> Option<
        DecorationHit,
    > {
        match hit {
            Some(found) if found.action != DecorationAction::Move && (pointer_free
                || self.kept(hit).window is Some) => hit,
            _ => None,
        }
    }

    /// Follows the pointer onto `hit`: a press ends when the pointer leaves its
    /// close button, and close buttons and grips light up unless another grab holds
    /// the pointer.
    pub fn hover(&mut self, hit: Option<DecorationHit>, pointer_free: bool) -> (hover: Option<
        DecorationHit,
    >)
        ensures
            *final(self) == old(self).kept(hit),
            hover == old(self).hovered(hit, pointer_free),
    {
        let on_button: bool = match (self.window, hit) {
            (Some(window), Some(found)) => found.window == window && found.action
                == DecorationAction::Close,
            _ => false,
        };
        if !on_button {
            self.window = None;
        }
        match hit {
            Some(found) => {
                if found.action != DecorationAction::Move && (pointer_free
                    || self.window.is_some()) {
                    hit
                } else {
                    None
                }
            },
            None => None,
        }
    }
}

pub open spec fn edges_asked_for(bits: u32) -> Option<Edges> {
    if bits == 0 {
        None
    } else {
        Some(edges_of(bits))
    }
}

/// The edges that a client's request to resize its window moves. A request that names
/// no edge is ignored.
pub fn requested_edges(bits: u32) -> (r: Option<Edges>)
    ensures
        r == if bits == 0 {
            None
        } else {
            Some(edges_of(bits))
        },
        r == edges_asked_for(bits),
{
    if bits == 0 {
        None
    } else {
        Some(Edges::from_bits(bits))
    }
}

/// How a toplevel starts.
#[derive(Clone, Copy, Debug, PartialEq, Eq, Structural)]
pub struct NewToplevel {
    pub location: Point,
    /// The bounds that it is told: the size of the output, if there is one.
    pub bounds: Option<Size>,
}

/// Places a toplevel that joins `count` windows.
pub fn new_toplevel(count: usize, output: Option<Rect>) -> (r: NewToplevel)
    ensures
        r.location.x == cascade(count as int),
        r.location.y == cascade(count as int),
        r.bounds == match output {
            Some(output) => Some(output.size),
            None => None,
        },
{
    NewToplevel {
        location: initial_location(count),
        bounds: match output {
            Some(output) => Some(output.size),
            None => None,
        },
    }
}

pub open spec fn grab_granted(
    has_grab: bool,
    focus_client: Option<u64>,
    window_client: Option<u64>,
) -> bool {
    has_grab && focus_client is Some && window_client is Some && focus_client->0
        == window_client->0
}

/// Whether a client's request to move or resize its window is granted: it must
/// name the pointer's current grab, which began on a surface of the same client.
pub fn grants_window_grab(
    has_grab: bool,
    focus_client: Option<u64>,
    window_client: Option<u64>,
) -> (r: bool)
    ensures
        r == (has_grab && focus_client is Some && focus_client == window_client),
        r == grab_granted(has_grab, focus_client, window_client),
{
    match (focus_client, window_client) {
        (Some(focus), Some(window)) => has_grab && focus == window,
        _ => false,
    }
}

/// What the pointer's motion does to a grabbed window.
#[derive(Clone, Copy, Debug, PartialEq, Eq, Structural)]
pub enum GrabMotion {
    /// A toplevel is told its new size and moves when it commits.
    ConfigureToplevel { size: Size },
    /// An X11 window is told its new rectangle and moves at once.
    ConfigureX11 { rect: Rect },
    /// The window moves; an X11 window is told so.
    Move { location: Point, configure: Option<Rect> },
    Nothing,
}

/// The limits that a client sets on its size; 0 for none.
#[derive(Clone, Copy, Debug, PartialEq, Eq, Structural)]
pub struct SizeLimits {
    pub minimum: Size,
    pub maximum: Size,
}

pub open spec fn no_limits() -> SizeLimits {
    SizeLimits { minimum: Size { w: 0, h: 0 }, maximum: Size { w: 0, h: 0 } }
}

pub open spec fn spec_grab_motion(
    shell: Shell,
    initial: Rect,
    edges: Option<Edges>,
    dragged: Dragged,
    moved: Point,
    limits: SizeLimits,
) -> GrabMotion {
    match edges {
        Some(edges) => match shell {
            Shell::Toplevel { .. } => GrabMotion::ConfigureToplevel {
                size: resized(initial.size, dragged, edges, limits.minimum, limits.maximum),
            },
            Shell::X11 { .. } => {
                let size = resized(
                    initial.size,
                    dragged,
                    edges,
                    no_limits().minimum,
                    no_limits().maximum,
                );
                GrabMotion::ConfigureX11 {
                    rect: Rect { loc: anchored(initial, size, edges), size },
                }
            },
            Shell::Other => GrabMotion::Nothing,
        },
        None => GrabMotion::Move {
            location: moved,
            configure: if shell is X11 {
                Some(Rect { loc: moved, size: initial.size })
            } else {
                None
            },
        },
    }
}

/// Follows the pointer with a grabbed window. `dragged` and `moved` are the sizes
/// and the location that the drag asks for, rounded to whole pixels; `limits` are
/// those of a toplevel, an X11 window has none.
pub fn grab_motion(
    shell: Shell,
    initial: Rect,
    edges: Option<Edges>,
    dragged: Dragged,
    moved: Point,
    limits: SizeLimits,
) -> (r: GrabMotion)
    requires
        (shell is X11 && edges is Some) ==> room_to_anchor(
            initial,
            resized(
                initial.size,
                dragged,
                edges->Some_0,
                no_limits().minimum,
                no_limits().maximum,
            ),
            edges->Some_0,
        ),
    ensures
        r == spec_grab_motion(shell, initial, edges, dragged, moved, limits),
{
    match edges {
        Some(edges) => match shell {
            Shell::Toplevel { .. } => GrabMotion::ConfigureToplevel {
                size: resize_size(initial.size, dragged, edges, limits.minimum, limits.maximum),
            },
            Shell::X11 { .. } => {
                let size: Size = resize_size(
                    initial.size,
                    dragged,
                    edges,
                    Size { w: 0, h: 0 },
                    Size { w: 0, h: 0 },
                );
                GrabMotion::ConfigureX11 {
                    rect: Rect { loc: anchor(initial, size, edges), size },
                }
            },
            Shell::Other => GrabMotion::Nothing,
        },
        None => {
            let configure: Option<Rect> = match shell {
                Shell::X11 { .. } => Some(Rect { loc: moved, size: initial.size }),
                Shell::Toplevel { .. } => None,
                Shell::Other => None,
            };
            GrabMotion::Move { location: moved, configure }
        },
    }
}

/// Whether a grab that began with `button` ends: the button is no longer pressed.
pub fn grab_ends(pressed: &Vec<u32>, button: u32) -> (r: bool)
    ensures
        r == !pressed@.contains(button),
{
    let mut index: usize = 0;
    while index < pressed.len()
        invariant
            index <= pressed.len(),
            forall|i: int| 0 <= i < index ==> pressed[i] != button,
        decreases pressed.len() - index,
    {
        if pressed[index] == button {
            return false;
        }
        index = index + 1;
    }
    true
}

/// The state of a pointer or keyboard when a popup asks for it.
#[derive(Clone, Copy, Debug, PartialEq, Eq, Structural)]
pub struct DeviceGrab {
    pub grabbed: bool,
    /// Whether the grab is the one that the popup names.
    pub has_serial: bool,
    /// Whether the grab is the one of the popup's parent.
    pub has_previous: bool,
}

impl DeviceGrab {
    /// Whether another grab holds the device.
    pub open spec fn foreign(self) -> bool {
        self.grabbed && !self.has_serial && !self.has_previous
    }
}

#[derive(Clone, Copy, Debug, PartialEq, Eq, Structural)]
pub enum PopupGrab {
    /// The popup is dismissed together with its parents.
    Refuse,
    /// The popup takes the devices that the seat has.
    Install { keyboard: bool, pointer: bool },
}

pub open spec fn popup_decision(pointer: Option<DeviceGrab>, keyboard: Option<DeviceGrab>) ->
    PopupGrab {
    if (pointer is Some && pointer->0.foreign()) || (keyboard is Some && keyboard->0.foreign()) {
        PopupGrab::Refuse
    } else {
        PopupGrab::Install { keyboard: keyboard is Some, pointer: pointer is Some }
    }
}

/// Decides on a popup's grab: it is refused while another grab holds one of the
/// seat's devices.
pub fn popup_grab(pointer: Option<DeviceGrab>, keyboard: Option<DeviceGrab>) -> (r: PopupGrab)
    ensures
        r == if (pointer matches Some(device) && device.foreign()) || (keyboard matches Some(device)
            && device.foreign()) {
            PopupGrab::Refuse
        } else {
            PopupGrab::Install { keyboard: keyboard is Some, pointer: pointer is Some }
        },
        r == popup_decision(pointer, keyboard),
{
    if let Some(device) = pointer {
        if device.grabbed && !(device.has_serial || device.has_previous) {
            return PopupGrab::Refuse;
        }
    }
    if let Some(device) = keyboard {
        if device.grabbed && !(device.has_serial || device.has_previous) {
            return PopupGrab::Refuse;
        }
    }
    PopupGrab::Install { keyboard: keyboard.is_some(), pointer: pointer.is_some() }
}

/// One extent of an X11 window that asked for it.
pub open spec fn requested_extent(current: i32, requested: Option<u32>) -> int {
    match requested {
        Some(extent) => crate::geometry::nearest(extent as int, 1, u16::MAX as int),
        None => current as int,
    }
}

fn request_extent(current: i32, requested: Option<u32>) -> (r: i32)
    ensures
        r == requested_extent(current, requested),
{
    match requested {
        Some(extent) => if extent < 1 {
            1
        } else if extent > 65535 {
            65535
        } else {
            extent as i32
        },
        None => current,
    }
}

pub open spec fn granted_rect(
    last_configure: Rect,
    modes: Modes,
    width: Option<u32>,
    height: Option<u32>,
) -> Rect {
    if modes.spec_expanded() {
        last_configure
    } else {
        Rect {
            loc: last_configure.loc,
            size: Size {
                w: requested_extent(last_configure.size.w, width) as i32,
                h: requested_extent(last_configure.size.h, height) as i32,
            },
        }
    }
}

/// The rectangle that an X11 window gets when it asks to be configured: it keeps
/// its location, and its size too while it is expanded.
pub fn configure_request(
    last_configure: Rect,
    modes: Modes,
    width: Option<u32>,
    height: Option<u32>,
) -> (r: Rect)
    ensures
        r.loc == last_configure.loc,
        modes.spec_expanded() ==> r == last_configure,
        !modes.spec_expanded() ==> r.size.w == requested_extent(last_configure.size.w, width)
            && r.size.h == requested_extent(last_configure.size.h, height),
        r == granted_rect(last_configure, modes, width, height),
{
    if modes.expanded() {
        last_configure
    } else {
        Rect {
            loc: last_configure.loc,
            size: Size {
                w: request_extent(last_configure.size.w, width),
                h: request_extent(last_configure.size.h, height),
            },
        }
    }
}

/// Whether a window has a title bar and a strip: the server was asked to decorate it or,
/// for X11, it neither places itself nor draws its own frame; and it is not shown full
/// screen.
pub open spec fn bar_and_strip(shell: Shell) -> bool {
    match shell {
        Shell::Toplevel { server_side, modes } => server_side && !modes.fullscreen,
        Shell::X11 { override_redirect, framed, modes } => !(override_redirect || framed
            || modes.fullscreen),
        Shell::Other => false,
    }
}

/// Whether a rectangle fills an output, together with a bar of 32 pixels above it and a
/// strip of 8 pixels below it where it has them. An output without the height for that
/// leaves the window one pixel.
pub open spec fn fills(rect: Rect, decorated: bool, output: Rect) -> bool {
    let above: int = if decorated {
        32
    } else {
        0
    };
    let below: int = if decorated {
        8
    } else {
        0
    };
    &&& rect.loc.x == output.loc.x
    &&& rect.size.w == output.size.w
    &&& rect.loc.y - above == output.loc.y
    &&& !decorated || output.size.h > 40 ==> rect.loc.y + rect.size.h + below == output.loc.y
        + output.size.h
    &&& decorated && output.size.h <= 40 ==> rect.size.h == 1
}

/// After the output has changed every expanded window fills it together with the
/// decorations that it shows: a toplevel is told the size and the bounds, an X11 window
/// the rectangle. It is the rectangle that the window would get if it were expanded on
/// that output now.
pub proof fn law_expanded_windows_fill_a_changed_output(
    window: StackedWindow,
    output: Rect,
    state: WindowState,
    current: Rect,
)
    requires
        room_for_decorations(output),
        match window.shell {
            Shell::Toplevel { modes, .. } => modes.maximized || modes.fullscreen,
            Shell::X11 { modes, .. } => modes.maximized || modes.fullscreen,
            Shell::Other => false,
        },
    ensures
        ({
            let change = output_change(window, output);
            let decorated = bar_and_strip(window.shell);
            &&& change.id == window.id
            &&& change.placement is Some
            &&& window.shell is Toplevel ==> {
                let rect = Rect { loc: change.placement->0.location, size: change.size->0 };
                &&& change.size is Some
                &&& change.bounds == change.size
                &&& change.placement->0.configure is None
                &&& fills(rect, decorated, output)
                &&& rect == state.expanded_geometry(
                    true,
                    current,
                    usable(output, window.shell.spec_decorated()),
                )
            }
            &&& window.shell is X11 ==> {
                &&& change.size is None
                &&& change.bounds is None
                &&& change.placement->0.configure is Some
                &&& change.placement->0.configure->0.loc == change.placement->0.location
                &&& fills(change.placement->0.configure->0, decorated, output)
            }
        }),
{
}

/// After the output has changed every other window keeps its size and is moved no
/// further than it takes to lie on the output together with its decorations, where it
/// fits. Toplevels learn how large they may become; windows that place themselves and
/// windows without a location stay.
pub proof fn law_other_windows_are_brought_onto_a_changed_output(
    window: StackedWindow,
    output: Rect,
)
    requires
        room_to_place(window, output),
        match window.shell {
            Shell::Toplevel { modes, .. } => !modes.maximized && !modes.fullscreen,
            Shell::X11 { modes, .. } => !modes.maximized && !modes.fullscreen,
            Shell::Other => true,
        },
    ensures
        ({
            let change = output_change(window, output);
            let decorated = bar_and_strip(window.shell);
            let places_itself = window.shell matches Shell::X11 { override_redirect, .. }
                && override_redirect;
            &&& change.id == window.id
            &&& change.size is None
            &&& change.bounds is Some <==> window.shell is Toplevel
            &&& change.bounds matches Some(bounds) ==> {
                &&& bounds.w == output.size.w
                &&& !decorated ==> bounds.h == output.size.h
                &&& decorated && output.size.h > 40 ==> bounds.h + 40 == output.size.h
                &&& decorated && output.size.h <= 40 ==> bounds.h == 1
            }
            &&& change.placement == constrained_placement(window, output)
            &&& change.placement is Some <==> window.location is Some && !places_itself
            &&& change.placement matches Some(placement) ==> brought_onto(
                window,
                placement,
                decorated,
                output,
            )
        }),
{
}

/// Whether a window that was placed lies on the output, axis by axis, with its bar and
/// strip where it has them; an axis on which it did already is left as it is, and one
/// on which the window does not fit starts where the output has room. X11 windows are
/// told the rectangle.
pub open spec fn brought_onto(
    window: StackedWindow,
    placement: Placement,
    decorated: bool,
    output: Rect,
) -> bool {
    let above: int = if decorated {
        32
    } else {
        0
    };
    let below: int = if decorated {
        8
    } else {
        0
    };
    let left = output.loc.x as int;
    let right = output.loc.x + output.size.w;
    let top = output.loc.y + above;
    let bottom = output.loc.y + output.size.h - below;
    let before = window.location->0;
    &&& placement.configure == if window.shell is X11 {
        Some(Rect { loc: placement.location, size: window.size })
    } else {
        None
    }
    &&& placement.location.x >= left
    &&& window.size.w <= right - left ==> placement.location.x + window.size.w <= right
    &&& window.size.w >= right - left ==> placement.location.x == left
    &&& left <= before.x && before.x + window.size.w <= right ==> placement.location.x == before.x
    &&& before.x < left ==> placement.location.x == left
    &&& before.x >= left && before.x + window.size.w > right && window.size.w < right - left
        ==> placement.location.x + window.size.w == right
    &&& placement.location.y >= top
    &&& !decorated || bottom > top ==> {
        &&& window.size.h <= bottom - top ==> placement.location.y + window.size.h <= bottom
        &&& window.size.h >= bottom - top ==> placement.location.y == top
        &&& top <= before.y && before.y + window.size.h <= bottom ==> placement.location.y
            == before.y
        &&& before.y < top ==> placement.location.y == top
        &&& before.y >= top && before.y + window.size.h > bottom && window.size.h < bottom - top
            ==> placement.location.y + window.size.h == bottom
    }
}

/// A window that was brought back by itself lies on the output in the same way.
pub proof fn law_constrained_windows_lie_on_the_output(window: StackedWindow, output: Rect)
    requires
        room_to_place(window, output),
    ensures
        constrained_placement(window, output) is Some <==> window.location is Some
            && !(window.shell matches Shell::X11 { override_redirect, .. } && override_redirect),
        constrained_placement(window, output) matches Some(placement) ==> brought_onto(
            window,
            placement,
            bar_and_strip(window.shell),
            output,
        ),
{
}

/// Expanding a toplevel makes it fill the output together with the decorations that it
/// then shows, ends a resize and keeps the first rectangle that it had; full screen
/// takes the decorations away.
pub proof fn law_expanding_fills_the_output(
    state: WindowState,
    server_side: bool,
    modes: Modes,
    mode: ExpandedMode,
    current: Rect,
    output: Rect,
)
    requires
        room_for_decorations(output),
    ensures
        ({
            let after = modes.spec_with(mode, true);
            let shell = Shell::Toplevel { server_side, modes: after };
            let rect = state.expanded_geometry(
                after.spec_expanded(),
                current,
                usable(output, shell.spec_decorated()),
            );
            &&& after == match mode {
                ExpandedMode::Maximized => Modes { maximized: true, fullscreen: modes.fullscreen },
                ExpandedMode::Fullscreen => Modes { maximized: modes.maximized, fullscreen: true },
            }
            &&& fills(rect, server_side && !after.fullscreen, output)
            &&& state.expanded_state(after.spec_expanded(), current) == WindowState {
                mapped: state.mapped,
                restore: if state.restore is Some {
                    state.restore
                } else {
                    Some(current)
                },
                resize: None,
            }
        }),
{
}

/// Turning a mode of a toplevel off leaves it as it fills the output by the other mode,
/// or brings back the rectangle that was kept, or leaves it where it is if none was.
pub proof fn law_collapsing_restores_or_keeps_the_other_mode(
    state: WindowState,
    server_side: bool,
    modes: Modes,
    mode: ExpandedMode,
    current: Rect,
    output: Rect,
)
    requires
        room_for_decorations(output),
    ensures
        ({
            let after = modes.spec_with(mode, false);
            let shell = Shell::Toplevel { server_side, modes: after };
            let rect = state.expanded_geometry(
                after.spec_expanded(),
                current,
                usable(output, shell.spec_decorated()),
            );
            let left = state.expanded_state(after.spec_expanded(), current);
            &&& after == match mode {
                ExpandedMode::Maximized => Modes { maximized: false, fullscreen: modes.fullscreen },
                ExpandedMode::Fullscreen => Modes { maximized: modes.maximized, fullscreen: false },
            }
            &&& after.maximized || after.fullscreen ==> fills(
                rect,
                server_side && !after.fullscreen,
                output,
            ) && left.restore is Some
            &&& !after.maximized && !after.fullscreen ==> {
                &&& state.restore matches Some(kept) ==> rect == kept
                &&& state.restore is None ==> rect == current
                &&& left.restore is None
            }
            &&& left.resize is None
            &&& left.mapped == state.mapped
        }),
{
}

/// A client's first buffer shows its window, brings it onto the output and gives it the
/// focus; a commit without one hides the window, which gives up its focus and its
/// resize; a window that changes its bounds is brought back unless it is being resized.
pub proof fn law_commits_show_and_hide_windows(state: WindowState, commit: SurfaceCommit)
    ensures
        ({
            let after = state.committed(commit);
            let plan = state.commit_plan(commit);
            &&& after.mapped == commit.has_buffer
            &&& after.restore == state.restore
            &&& plan.focus == CommitFocus::Take <==> commit.has_buffer && !state.mapped
            &&& plan.focus == CommitFocus::Release <==> !commit.has_buffer && state.mapped
            &&& plan.focus == CommitFocus::Release ==> after.resize is None
            &&& !commit.has_buffer || state.resize is Some ==> !plan.constrain
            &&& commit.has_buffer && state.resize is None ==> plan.constrain == (!state.mapped
                || commit.bounds_changed)
        }),
{
}

/// A commit of a window that is being resized moves it so that the edges that are not
/// dragged stay where they were; the resize ends with the commit that follows the
/// acknowledged last configure, and with no other that keeps the window mapped.
pub proof fn law_commits_carry_a_resize(
    state: WindowState,
    commit: SurfaceCommit,
    resize: Resize,
)
    requires
        state.room_to_commit(commit.size),
        state.resize == Some(resize),
    ensures
        state.commit_plan(commit).location is Some,
        ({
            let placed = state.commit_plan(commit).location->0;
            let start = resize.initial;
            &&& resize.edges.left ==> placed.x + commit.size.w == start.loc.x + start.size.w
            &&& !resize.edges.left ==> placed.x == start.loc.x
            &&& resize.edges.top ==> placed.y + commit.size.h == start.loc.y + start.size.h
            &&& !resize.edges.top ==> placed.y == start.loc.y
        }),
        resize.final_serial is Some && commit.toplevel && commit.acknowledged ==> state.committed(
            commit,
        ).resize is None,
        (resize.final_serial is None || !commit.toplevel || !commit.acknowledged) && (
        commit.has_buffer || !state.mapped) ==> state.committed(commit).resize == Some(resize),
        state.resize is None ==> state.commit_plan(commit).location is None,
{
}

/// A window can take the focus while it is mapped, but for the one that gives the focus
/// up and, where that is asked for, X11 windows that place themselves.
pub proof fn law_hidden_windows_take_no_focus(
    window: StackedWindow,
    leaving: Option<WindowId>,
    managed: bool,
)
    ensures
        focusable(window, leaving, managed) ==> window.mapped,
        leaving == Some(window.id) ==> !focusable(window, leaving, managed),
        managed ==> (window.shell matches Shell::X11 { override_redirect: true, .. })
            ==> !focusable(window, leaving, managed),
        window.mapped && leaving != Some(window.id) && (!managed || !(
        window.shell matches Shell::X11 { override_redirect: true, .. })) ==> focusable(
            window,
            leaving,
            managed,
        ),
{
}

/// The keyboard goes to the focused window in the way of its shell, and toplevels are
/// told by a configure event whether they are active.
pub proof fn law_focus_reaches_the_window(
    stack: Seq<StackedWindow>,
    focused: Option<WindowId>,
    window: StackedWindow,
    has_surface: bool,
    i: int,
)
    requires
        0 <= i < stack.len(),
    ensures
        activations(stack, focused).len() == stack.len(),
        activations(stack, focused)[i].id == stack[i].id,
        activations(stack, focused)[i].activated <==> focused == Some(stack[i].id),
        activations(stack, focused)[i].configure <==> stack[i].shell is Toplevel,
        window.shell is X11 ==> keyboard_focus(window, has_surface) == Some(
            KeyboardFocus::X11(window.id),
        ),
        !(window.shell is X11) && has_surface ==> keyboard_focus(window, has_surface) == Some(
            KeyboardFocus::Wayland(window.id),
        ),
        !(window.shell is X11) && !has_surface ==> keyboard_focus(window, has_surface) is None,
{
}

/// X11 is told of its windows and of no others, in the order of the stack: the order of
/// a stack is that of its lower part followed by that of its upper part.
pub proof fn law_x11_order_is_the_order_of_the_stack(
    lower: Seq<StackedWindow>,
    upper: Seq<StackedWindow>,
    window: StackedWindow,
)
    ensures
        x11_windows(lower + upper) == x11_windows(lower) + x11_windows(upper),
        window.shell is X11 ==> x11_windows(seq![window]) == seq![window.id],
        !(window.shell is X11) ==> x11_windows(seq![window]).len() == 0,
    decreases upper.len(),
{
    assert(x11_windows(Seq::<StackedWindow>::empty()) =~= Seq::<WindowId>::empty());
    assert(seq![window].drop_last() =~= Seq::<StackedWindow>::empty());
    assert(x11_windows(seq![window].drop_last()) =~= Seq::<WindowId>::empty());
    if window.shell is X11 {
        assert(x11_windows(seq![window]) =~= seq![window.id]);
    }
    if upper.len() == 0 {
        assert(lower + upper =~= lower);
        assert(x11_windows(lower) + x11_windows(upper) =~= x11_windows(lower));
    } else {
        law_x11_order_is_the_order_of_the_stack(lower, upper.drop_last(), window);
        assert((lower + upper).drop_last() =~= lower + upper.drop_last());
        assert((lower + upper).last() == upper.last());
        assert(x11_windows(lower + upper) =~= x11_windows(lower) + x11_windows(upper));
    }
}

/// Whether the window at that place of the stack shows a decoration under the pointer
/// that does this: it is mapped, it is not empty, and it has a bar and a strip.
pub open spec fn acts_at(probe: Probe, pointer: Point, action: DecorationAction) -> bool {
    let window = probe.window;
    let x = pointer.x - window.location->0.x;
    let y = pointer.y - window.location->0.y;
    let w = window.size.w;
    let h = window.size.h;
    &&& window.location is Some
    &&& window.mapped && w > 0 && h > 0 && bar_and_strip(window.shell)
    &&& 0 <= x < w
    &&& match action {
        DecorationAction::Close => -32 <= y < 0 && x >= w - 32,
        DecorationAction::Move => -32 <= y < 0 && x < w - 32,
        DecorationAction::Resize => h <= y < h + 8 && x >= w - 24,
    }
}

pub open spec fn acts(probe: Probe, pointer: Point) -> bool {
    exists|action: DecorationAction| #[trigger] acts_at(probe, pointer, action)
}

/// The decoration that is hit belongs to a window of the stack that shows it under the
/// pointer, with no surface of that window or of one above it in between. Where none is
/// hit, no window shows one, or a surface or a window without a location lies above.
pub proof fn law_the_topmost_decoration_is_hit(stack: Seq<Probe>, pointer: Point)
    ensures
        match hit_in(stack, pointer) {
            Some(hit) => exists|i: int|
                0 <= i < stack.len() && hit.window == (#[trigger] stack[i]).window.id && acts_at(
                    stack[i],
                    pointer,
                    hit.action,
                ) && reached(stack, pointer, i),
            None => forall|i: int|
                0 <= i < stack.len() && #[trigger] reached(stack, pointer, i) ==> !acts(
                    stack[i],
                    pointer,
                ),
        },
    decreases stack.len(),
{
    if stack.len() > 0 {
        let top = stack.len() - 1;
        let below = stack.drop_last();
        law_the_topmost_decoration_is_hit(below, pointer);
        let probe = stack[top];
        if probe.window.location is Some {
            let layout = Layout { size: probe.window.size };
            let x = pointer.x - probe.window.location->0.x;
            let y = pointer.y - probe.window.location->0.y;
            if shows_decoration(probe.window) {
                crate::geometry::law_presses_act_by_where_they_land(layout, x, y);
            }
        }
        match hit_in(stack, pointer) {
            Some(hit) => {
                if probe.window.location is Some && own_hit(
                    probe.window,
                    probe.window.location->0,
                    pointer,
                ) is Some {
                    assert(acts_at(stack[top], pointer, hit.action));
                    assert(reached(stack, pointer, top));
                } else {
                    assert(hit_in(below, pointer) == Some(hit));
                    let i = choose|i: int|
                        0 <= i < below.len() && hit.window == (#[trigger] below[i]).window.id
                            && acts_at(below[i], pointer, hit.action) && reached(below, pointer, i);
                    assert(stack[i] == below[i]);
                    assert(!acts(probe, pointer));
                    assert forall|j: int| i < j < stack.len() implies passed(
                        #[trigger] stack[j],
                        pointer,
                    ) by {
                        if j < top {
                            assert(below[j] == stack[j]);
                        }
                    }
                    assert(reached(stack, pointer, i));
                }
            },
            None => {
                assert forall|i: int|
                    0 <= i < stack.len() && #[trigger] reached(stack, pointer, i) implies !acts(
                    stack[i],
                    pointer,
                ) by {
                    if i < top {
                        assert(passed(stack[top], pointer));
                        assert(below[i] == stack[i]);
                        assert forall|j: int| i < j < below.len() implies passed(
                            #[trigger] below[j],
                            pointer,
                        ) by {
                            assert(below[j] == stack[j]);
                        }
                        assert(reached(below, pointer, i));
                    }
                }
            },
        }
    }
}

/// Whether the pointer passes a window: it has a location, and neither a surface of it
/// nor a decoration lies under the pointer.
pub open spec fn passed(probe: Probe, pointer: Point) -> bool {
    probe.window.location is Some && !probe.covered && !acts(probe, pointer)
}

/// Whether the pointer passes all windows above, and no surface of this one covers it.
pub open spec fn reached(stack: Seq<Probe>, pointer: Point, i: int) -> bool {
    &&& stack[i].window.location is Some
    &&& !stack[i].covered
    &&& forall|j: int| i < j < stack.len() ==> passed(#[trigger] stack[j], pointer)
}

/// A press on a close button lasts while the pointer stays on that button of that
/// window, and once gone it does not come back by moving the pointer.
pub proof fn law_presses_last_on_their_button(
    press: DecorationPress,
    hit: Option<DecorationHit>,
    pointer_free: bool,
)
    ensures
        press.kept(hit).window is Some <==> press.window is Some && hit is Some && hit->0.window
            == press.window->0 && hit->0.action == DecorationAction::Close,
        press.kept(hit).window is Some ==> press.kept(hit) == press,
        press.hovered(hit, pointer_free) is Some ==> press.hovered(hit, pointer_free) == hit,
        press.hovered(hit, pointer_free) is Some <==> hit is Some && (hit->0.action
            == DecorationAction::Close || hit->0.action == DecorationAction::Resize) && (
        pointer_free || press.window == Some(hit->0.window) && hit->0.action
            == DecorationAction::Close),
{
}

/// A window that is grabbed without edges follows the pointer and keeps its size.
pub proof fn law_moved_windows_keep_their_size(
    shell: Shell,
    initial: Rect,
    dragged: Dragged,
    moved: Point,
    limits: SizeLimits,
)
    ensures
        ({
            let motion = spec_grab_motion(shell, initial, None, dragged, moved, limits);
            &&& motion is Move
            &&& motion->location == moved
            &&& shell is X11 ==> motion->configure == Some(Rect { loc: moved, size: initial.size })
            &&& !(shell is X11) ==> motion->configure is None
        }),
{
}

/// A window that is resized gets, on each axis, the extent that the drag asks for as
/// far as a toplevel's limits allow; an X11 window knows only that it cannot be empty,
/// and keeps the edges opposite to the dragged ones in place.
pub proof fn law_resized_windows_follow_the_drag(
    shell: Shell,
    initial: Rect,
    edges: Edges,
    dragged: Dragged,
    moved: Point,
    limits: SizeLimits,
)
    requires
        shell is X11 ==> room_to_anchor(
            initial,
            resized(
                initial.size,
                dragged,
                edges,
                no_limits().minimum,
                no_limits().maximum,
            ),
            edges,
        ),
    ensures
        ({
            let motion = spec_grab_motion(shell, initial, Some(edges), dragged, moved, limits);
            let w = if edges.left {
                dragged.shrunk.w
            } else if edges.right {
                dragged.grown.w
            } else {
                initial.size.w
            };
            let h = if edges.top {
                dragged.shrunk.h
            } else if edges.bottom {
                dragged.grown.h
            } else {
                initial.size.h
            };
            match shell {
                Shell::Toplevel { .. } => {
                    &&& motion is ConfigureToplevel
                    &&& crate::geometry::follows(
                        motion->size.w,
                        w,
                        limits.minimum.w,
                        limits.maximum.w,
                    )
                    &&& crate::geometry::follows(
                        motion->size.h,
                        h,
                        limits.minimum.h,
                        limits.maximum.h,
                    )
                },
                Shell::X11 { .. } => {
                    &&& motion is ConfigureX11
                    &&& motion->rect.size.w == if w >= 1 {
                        w
                    } else {
                        1
                    }
                    &&& motion->rect.size.h == if h >= 1 {
                        h
                    } else {
                        1
                    }
                    &&& edges.left ==> motion->rect.loc.x + motion->rect.size.w == initial.loc.x
                        + initial.size.w
                    &&& !edges.left ==> motion->rect.loc.x == initial.loc.x
                    &&& edges.top ==> motion->rect.loc.y + motion->rect.size.h == initial.loc.y
                        + initial.size.h
                    &&& !edges.top ==> motion->rect.loc.y == initial.loc.y
                },
                Shell::Other => motion is Nothing,
            }
        }),
{
}

/// A popup is refused the devices only where another grab holds one of them: one that
/// is neither the grab that the popup names nor that of its parent.
pub proof fn law_foreign_grabs_are_no_popups_own(grab: DeviceGrab)
    ensures
        grab.foreign() <==> grab.grabbed && !(grab.has_serial || grab.has_previous),
{
}

/// An extent that an X11 window asks for is granted from 1 to 65535 and else brought
/// there; without a request the extent stays.
pub proof fn law_requested_extents_fit_the_protocol(current: i32, extent: u32)
    ensures
        requested_extent(current, None) == current,
        1 <= extent <= 65535 ==> requested_extent(current, Some(extent)) == extent,
        extent == 0 ==> requested_extent(current, Some(extent)) == 1,
        extent > 65535 ==> requested_extent(current, Some(extent)) == 65535,
{
}

/// An X11 window's rectangle is saved when the window is first expanded, and by nothing
/// else.
pub proof fn law_zoom_saves_what_it_replaces(
    saved: Option<Rect>,
    before: Modes,
    enabled: bool,
    last_configure: Rect,
)
    ensures
        zoom_saves(saved, before, enabled, last_configure) == if enabled && !before.maximized
            && !before.fullscreen {
            Some(last_configure)
        } else {
            saved
        },
{
}

/// An X11 window that is expanded fills the area that it is given, and the rectangle
/// that it had before the first of its modes is saved until the last of them is turned
/// off: then the window returns to it.
pub proof fn law_zoomed_windows_return(
    saved: Option<Rect>,
    before: Modes,
    after: Modes,
    enabled: bool,
    last_configure: Rect,
    area: Option<Rect>,
)
    ensures
        ({
            let (geometry, kept) = zoom_result(saved, before, after, enabled, last_configure, area);
            let earlier = before.maximized || before.fullscreen;
            let later = after.maximized || after.fullscreen;
            &&& later ==> geometry == area
            &&& later && enabled && !earlier ==> kept == Some(last_configure)
            &&& later && earlier ==> kept == saved
            &&& !later && (earlier || !enabled) ==> geometry == saved
            &&& !later ==> kept is None
        }),
{
}

/// The focus moves when the focused window disappears or what had the focus has died,
/// and stays otherwise. It goes to a mapped window that is not the one that disappeared.
pub proof fn law_the_focus_moves_when_it_must(
    stack: Seq<StackedWindow>,
    window: WindowId,
    focused: Option<WindowId>,
    focus_alive: Option<bool>,
)
    ensures
        unmap_focus(stack, window, focused) is Some <==> focused == Some(window),
        unmap_focus(stack, window, focused) matches Some(Some(next)) ==> next != window,
        unmap_focus(stack, window, focused) matches Some(next) ==> next == topmost(
            stack,
            Some(window),
            true,
        ),
        death_focus(stack, focus_alive) is Some <==> focus_alive is Some && !focus_alive->0,
        death_focus(stack, focus_alive) matches Some(next) ==> next == topmost(stack, None, false),
{
    law_focus_goes_to_the_topmost_window(stack, Some(window), true);
}

/// The window that gets the focus is raised, it alone is told that it is active, and the
/// keyboard goes to it; X11 learns of the order where the window is its own. Without a
/// window nothing is raised, none is active and the keyboard goes to nobody.
pub proof fn law_the_focused_window_is_raised_and_active(
    plan: FocusPlan,
    stack: Seq<StackedWindow>,
    target: Option<StackedWindow>,
    has_surface: bool,
    x11_running: bool,
    i: int,
)
    requires
        moves_focus(plan, stack, target, has_surface, x11_running),
        0 <= i < stack.len(),
    ensures
        plan.activations@.len() == stack.len(),
        plan.activations@[i].id == stack[i].id,
        plan.activations@[i].configure <==> stack[i].shell is Toplevel,
        target matches Some(window) ==> {
            &&& plan.raise == Some(window.id)
            &&& plan.activations@[i].activated <==> stack[i].id == window.id
            &&& plan.raise_x11 <==> window.shell is X11 && x11_running
            &&& window.shell is X11 ==> plan.keyboard == Some(KeyboardFocus::X11(window.id))
            &&& !(window.shell is X11) && has_surface ==> plan.keyboard == Some(
                KeyboardFocus::Wayland(window.id),
            )
            &&& !(window.shell is X11) && !has_surface ==> plan.keyboard is None
        },
        target is None ==> {
            &&& plan.raise is None
            &&& !plan.raise_x11
            &&& !plan.activations@[i].activated
            &&& plan.keyboard is None
        },
{
}

/// A request that names no edge resizes nothing; any other moves the edges of its bits.
pub proof fn law_resize_requests_name_edges(bits: u32)
    ensures
        edges_asked_for(bits) is None <==> bits == 0,
        edges_asked_for(bits) matches Some(edges) ==> {
            &&& edges.top <==> bits % 2 == 1
            &&& edges.bottom <==> (bits / 2) % 2 == 1
            &&& edges.left <==> (bits / 4) % 2 == 1
            &&& edges.right <==> (bits / 8) % 2 == 1
        },
{
    crate::geometry::law_edges_are_bits(bits);
}

/// A client moves its own windows with the pointer that it holds, and no other.
pub proof fn law_grabs_are_granted_to_their_client(
    has_grab: bool,
    focus_client: Option<u64>,
    window_client: Option<u64>,
)
    ensures
        grab_granted(has_grab, focus_client, window_client) ==> has_grab && focus_client is Some
            && focus_client == window_client,
        has_grab && focus_client is Some && focus_client == window_client ==> grab_granted(
            has_grab,
            focus_client,
            window_client,
        ),
{
}

/// A popup takes every device that the seat has, unless one is held by a grab that is
/// neither the one that it names nor that of its parent.
pub proof fn law_popups_take_what_is_free(
    pointer: Option<DeviceGrab>,
    keyboard: Option<DeviceGrab>,
)
    ensures
        ({
            let held = |device: Option<DeviceGrab>|
                device is Some && device->0.grabbed && !device->0.has_serial
                    && !device->0.has_previous;
            &&& popup_decision(pointer, keyboard) == PopupGrab::Refuse <==> held(pointer) || held(
                keyboard,
            )
            &&& popup_decision(pointer, keyboard) matches PopupGrab::Install {
                keyboard: k,
                pointer: p,
            } ==> k == (keyboard is Some) && p == (pointer is Some)
        }),
{
}

/// An X11 window that asks to be configured keeps its place, and while it is expanded its
/// size; else each extent that it asks for is granted from 1 to 65535.
pub proof fn law_configure_requests_keep_the_place(
    last_configure: Rect,
    modes: Modes,
    width: Option<u32>,
    height: Option<u32>,
)
    ensures
        ({
            let rect = granted_rect(last_configure, modes, width, height);
            let free = !modes.maximized && !modes.fullscreen;
            &&& rect.loc == last_configure.loc
            &&& !free ==> rect.size == last_configure.size
            &&& free && width is None ==> rect.size.w == last_configure.size.w
            &&& free && height is None ==> rect.size.h == last_configure.size.h
            &&& free ==> (width matches Some(extent) ==> 1 <= rect.size.w <= 65535 && (1 <= extent
                <= 65535 ==> rect.size.w == extent))
            &&& free ==> (height matches Some(extent) ==> 1 <= rect.size.h <= 65535 && (1 <= extent
                <= 65535 ==> rect.size.h == extent))
        }),
{
}

/// A resize lasts from the grab that begins it until the client has acknowledged the
/// configure that the end of the grab sent, or until the window is gone; a move is none.
pub proof fn law_resizes_last_until_acknowledged(
    state: WindowState,
    edges: Edges,
    initial: Rect,
    serial: u32,
    commit: SurfaceCommit,
)
    requires
        state.mapped,
        commit.has_buffer,
        commit.toplevel,
    ensures
        ({
            let begun = state.grabbed(Some(edges), initial);
            let ended = begun.let_go(serial);
            &&& begun.resize == Some(Resize { edges, initial, final_serial: None })
            &&& begun.committed(commit).resize == begun.resize
            &&& ended.resize == Some(Resize { edges, initial, final_serial: Some(serial) })
            &&& commit.acknowledged ==> ended.committed(commit).resize is None
            &&& !commit.acknowledged ==> ended.committed(commit).resize == ended.resize
            &&& begun.unmapped().resize is None && !begun.unmapped().mapped
            &&& begun.restore == state.restore && ended.restore == state.restore
                && begun.unmapped().restore == state.restore
            &&& begun.mapped && ended.mapped
        }),
        state.grabbed(None, initial).resize is None,
        state.resize is None ==> state.let_go(serial) == state,
{
}

} // verus!
