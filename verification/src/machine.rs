//! The interaction state machine: consumes display-server events, mutates
//! the registry (re-tiling on every structural change), and drives the
//! single drag slot for move / resize gestures.
//!
//! `step_spec` is the machine's functional model: it says, for every state
//! and event, what the next state is and which commands go out. The
//! executable handler is proved to follow it exactly.

use vstd::prelude::*;
use crate::drag::drag_motion;
use crate::drag::motion_request;
use crate::drag::DragButton;
use crate::drag::DragState;
use crate::drag::QueriedGeometry;
use crate::geometry::Command;
use crate::geometry::ScreenGeometry;
use crate::geometry::WindowData;
use crate::registry::new_window;
use crate::registry::retained;
use crate::registry::Registry;
use crate::registry::lemma_retained_drops_only_last;
use crate::tiling::master_tiling;
use crate::tiling::tile_commands;
use crate::tiling::tiled_windows;
use crate::tiling::lemma_tiled_windows_depend_on_ids;

verus! {

/// The pointer button that starts a move drag (the primary button).
pub const MOVE_BUTTON: u8 = 1;

/// The pointer button that starts a resize drag (the secondary button).
pub const RESIZE_BUTTON: u8 = 3;

/// One typed event from the display server, as the event loop hands it in.
///
/// A button press carries the target window's geometry as queried
/// synchronously at press time, since entering a drag anchors on it.
#[derive(Clone, Copy, Debug, PartialEq, Eq, Structural)]
pub enum WmEvent {
    /// A new client window appeared.
    WindowCreated { window: u32 },
    /// A client window went away.
    WindowDestroyed { window: u32 },
    /// The configured raise chord was pressed over `window`.
    KeyPress { window: u32 },
    /// A grabbed pointer button went down over `window`, with the pointer at
    /// root-relative `(root_x, root_y)` and the window at `geometry`.
    ButtonPress { button: u8, window: u32, root_x: i16, root_y: i16, geometry: QueriedGeometry },
    /// The pointer moved to root-relative `(root_x, root_y)`.
    Motion { root_x: i16, root_y: i16 },
    /// The grabbed pointer button went up.
    ButtonRelease,
}

/// The mathematical state of the whole manager: the screen, the tracked
/// windows in tiling order, and the drag slot.
#[verifier::ext_equal]
pub ghost struct WmModel {
    pub screen: ScreenGeometry,
    pub windows: Seq<WindowData>,
    pub drag: Option<DragState>,
}

/// The drag slot a qualifying button press populates: the press's target,
/// pointer position and queried geometry become the anchor.
pub open spec fn press_drag(
    button: DragButton,
    window: u32,
    root_x: i16,
    root_y: i16,
    geometry: QueriedGeometry,
) -> DragState {
    DragState {
        window,
        button,
        anchor_x: root_x,
        anchor_y: root_y,
        anchor_geometry: geometry,
    }
}

/// One step of the state machine: the state after the event and the
/// commands it emits, in emission order.
///
/// Structural events re-tile the whole registry; a destroy of the dragged
/// window also clears the drag slot, so no stale drag survives it. A press
/// of a button that is neither the move nor the resize button is ignored:
/// that combination is deliberately a no-op. A motion with no active drag
/// is a no-op as well.
pub open spec fn step_spec(m: WmModel, ev: WmEvent) -> (WmModel, Seq<Command>) {
    match ev {
        WmEvent::WindowCreated { window } => {
            let grown = m.windows.push(new_window(window));
            (
                WmModel { windows: tiled_windows(m.screen, grown), ..m },
                tile_commands(m.screen, grown),
            )
        },
        WmEvent::WindowDestroyed { window } => {
            let kept = retained(m.windows, window);
            let drag = match m.drag {
                Some(d) => if d.window == window { None } else { m.drag },
                None => None,
            };
            (
                WmModel { windows: tiled_windows(m.screen, kept), drag, ..m },
                tile_commands(m.screen, kept),
            )
        },
        WmEvent::KeyPress { window } => (m, seq![Command::RaiseAbove { window }]),
        WmEvent::ButtonPress { button, window, root_x, root_y, geometry } => {
            if button == MOVE_BUTTON {
                (
                    WmModel {
                        drag: Some(press_drag(DragButton::Move, window, root_x, root_y, geometry)),
                        ..m
                    },
                    Seq::empty(),
                )
            } else if button == RESIZE_BUTTON {
                (
                    WmModel {
                        drag: Some(
                            press_drag(DragButton::Resize, window, root_x, root_y, geometry),
                        ),
                        ..m
                    },
                    Seq::empty(),
                )
            } else {
                (m, Seq::empty())
            }
        },
        WmEvent::Motion { root_x, root_y } => match m.drag {
            Some(d) => (m, seq![Command::Configure(motion_request(d, root_x, root_y))]),
            None => (m, Seq::empty()),
        },
        WmEvent::ButtonRelease => (WmModel { drag: None, ..m }, Seq::empty()),
    }
}

/// The window manager: exclusive owner of the registry and the drag slot.
pub struct WindowManager {
    /// Root screen size, fixed for the session.
    pub screen: ScreenGeometry,
    /// The tracked windows in tiling order.
    pub registry: Registry,
    /// The single drag slot; `None` while idle.
    pub drag: Option<DragState>,
}

impl View for WindowManager {
    type V = WmModel;

    open spec fn view(&self) -> WmModel {
        WmModel { screen: self.screen, windows: self.registry@, drag: self.drag }
    }
}

impl WindowManager {
    /// A fresh manager for a screen of the given size: nothing tracked, no
    /// drag active.
    pub fn new(screen: ScreenGeometry) -> (r: WindowManager)
        ensures
            r@ == (WmModel { screen, windows: Seq::<WindowData>::empty(), drag: None }),
    {
        WindowManager { screen, registry: Registry::new(), drag: None }
    }

    /// Processes one event to completion and returns the commands to flush
    /// to the display server, in order. The new state and the commands are
    /// exactly those of `step_spec`.
    pub fn handle_event(&mut self, ev: WmEvent) -> (cmds: Vec<Command>)
        ensures
            final(self)@ == step_spec(old(self)@, ev).0,
            cmds@ == step_spec(old(self)@, ev).1,
    {
        match ev {
            WmEvent::WindowCreated { window } => {
                self.registry.insert(window);
                let (tiled, cmds) = master_tiling(&self.screen, self.registry.as_ordered_list());
                self.registry.set_all(tiled);
                cmds
            },
            WmEvent::WindowDestroyed { window } => {
                let stale = match &self.drag {
                    Some(d) => d.window == window,
                    None => false,
                };
                if stale {
                    self.drag = None;
                }
                self.registry.remove(window);
                let (tiled, cmds) = master_tiling(&self.screen, self.registry.as_ordered_list());
                self.registry.set_all(tiled);
                cmds
            },
            WmEvent::KeyPress { window } => {
                let mut cmds: Vec<Command> = Vec::new();
                cmds.push(Command::RaiseAbove { window });
                proof {
                    assert(cmds@ =~= seq![Command::RaiseAbove { window }]);
                }
                cmds
            },
            WmEvent::ButtonPress { button, window, root_x, root_y, geometry } => {
                if button == MOVE_BUTTON {
                    self.drag = Some(
                        DragState {
                            window,
                            button: DragButton::Move,
                            anchor_x: root_x,
                            anchor_y: root_y,
                            anchor_geometry: geometry,
                        },
                    );
                } else if button == RESIZE_BUTTON {
                    self.drag = Some(
                        DragState {
                            window,
                            button: DragButton::Resize,
                            anchor_x: root_x,
                            anchor_y: root_y,
                            anchor_geometry: geometry,
                        },
                    );
                }
                Vec::new()
            },
            WmEvent::Motion { root_x, root_y } => {
                let mut cmds: Vec<Command> = Vec::new();
                match &self.drag {
                    Some(d) => {
                        let req = drag_motion(d, root_x, root_y);
                        cmds.push(Command::Configure(req));
                        proof {
                            assert(cmds@ =~= seq![
                                Command::Configure(motion_request(self.drag->Some_0, root_x, root_y)),
                            ]);
                        }
                    },
                    None => {},
                }
                cmds
            },
            WmEvent::ButtonRelease => {
                self.drag = None;
                Vec::new()
            },
        }
    }
}

/// Inserting a window and immediately removing it restores the pre-insert
/// state bit for bit, layout included: this holds in any state whose
/// geometries are the tiled layout of its registry (as after any structural
/// change), when the inserted id is not already tracked and is not the
/// target of an active drag.
pub proof fn lemma_insert_remove_restores_layout(m: WmModel, id: u32)
    requires
        forall|i: int| 0 <= i < m.windows.len() ==> m.windows[i].window != id,
        m.drag matches Some(d) ==> d.window != id,
        m.windows == tiled_windows(m.screen, m.windows),
    ensures
        step_spec(
            step_spec(m, WmEvent::WindowCreated { window: id }).0,
            WmEvent::WindowDestroyed { window: id },
        ).0 == m,
{
    let grown = m.windows.push(new_window(id));
    let t = tiled_windows(m.screen, grown);
    let m1 = step_spec(m, WmEvent::WindowCreated { window: id }).0;
    assert(forall|i: int| 0 <= i < t.len() ==> #[trigger] t[i].window == grown[i].window);
    lemma_retained_drops_only_last(t, id);
    let kept = t.drop_last();
    assert(forall|i: int|
        0 <= i < kept.len() ==> #[trigger] kept[i].window == m.windows[i].window);
    lemma_tiled_windows_depend_on_ids(m.screen, kept, m.windows);
    assert(step_spec(m1, WmEvent::WindowDestroyed { window: id }).0 =~= m);
}

/// A motion event never changes the manager's state: the drag slot and the
/// registry come out as they went in.
pub proof fn lemma_motion_leaves_state(m: WmModel, root_x: i16, root_y: i16)
    ensures
        step_spec(m, WmEvent::Motion { root_x, root_y }).0 == m,
{
}

/// Intermediate motion is irrelevant: whatever motion event is processed in
/// between, a later motion event yields the same state and the same
/// command as if it had come first. Only the anchor and the final pointer
/// position decide where a drag ends up.
pub proof fn lemma_motion_path_independence(
    m: WmModel,
    mid_x: i16,
    mid_y: i16,
    fin_x: i16,
    fin_y: i16,
)
    ensures
        step_spec(
            step_spec(m, WmEvent::Motion { root_x: mid_x, root_y: mid_y }).0,
            WmEvent::Motion { root_x: fin_x, root_y: fin_y },
        ) == step_spec(m, WmEvent::Motion { root_x: fin_x, root_y: fin_y }),
{
}

} // verus!
