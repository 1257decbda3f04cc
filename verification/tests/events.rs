//! Tests for the interaction state machine: create/destroy re-tiling,
//! the raise chord, and the move / resize drag gestures.

use tilewm::drag::QueriedGeometry;
use tilewm::geometry::Command;
use tilewm::geometry::ConfigureRequest;
use tilewm::geometry::ScreenGeometry;
use tilewm::geometry::WindowData;
use tilewm::machine::WindowManager;
use tilewm::machine::WmEvent;
use tilewm::machine::MOVE_BUTTON;
use tilewm::machine::RESIZE_BUTTON;

fn manager() -> WindowManager {
    WindowManager::new(ScreenGeometry { width: 1920, height: 1080 })
}

fn configure(window: u32, x: i32, y: i32, width: u32, height: u32) -> Command {
    Command::Configure(ConfigureRequest { window, x, y, width, height })
}

fn press(button: u8, window: u32, root_x: i16, root_y: i16, g: (i16, i16, u16, u16)) -> WmEvent {
    WmEvent::ButtonPress {
        button,
        window,
        root_x,
        root_y,
        geometry: QueriedGeometry { x: g.0, y: g.1, width: g.2, height: g.3 },
    }
}

#[test]
fn create_one_two_three_windows() {
    let mut m = manager();
    let cmds = m.handle_event(WmEvent::WindowCreated { window: 1 });
    assert_eq!(cmds, vec![configure(1, 0, 0, 1920, 1080)]);

    let cmds = m.handle_event(WmEvent::WindowCreated { window: 2 });
    assert_eq!(
        cmds,
        vec![configure(1, 0, 0, 1152, 1080), configure(2, 1152, 0, 768, 1080)]
    );

    let cmds = m.handle_event(WmEvent::WindowCreated { window: 3 });
    assert_eq!(
        cmds,
        vec![
            configure(1, 0, 0, 1152, 1080),
            configure(2, 1152, 0, 768, 540),
            configure(3, 1152, 540, 768, 540),
        ]
    );
}

#[test]
fn destroy_retiles_the_survivors() {
    // With windows 1, 2, 3 tiled, destroying 2 yields exactly the layout
    // that 1 and 3 would have had if 3 had been the second window created.
    let mut m = manager();
    m.handle_event(WmEvent::WindowCreated { window: 1 });
    m.handle_event(WmEvent::WindowCreated { window: 2 });
    m.handle_event(WmEvent::WindowCreated { window: 3 });

    let cmds = m.handle_event(WmEvent::WindowDestroyed { window: 2 });
    assert_eq!(
        cmds,
        vec![configure(1, 0, 0, 1152, 1080), configure(3, 1152, 0, 768, 1080)]
    );

    let mut two = manager();
    two.handle_event(WmEvent::WindowCreated { window: 1 });
    let direct = two.handle_event(WmEvent::WindowCreated { window: 3 });
    let retile = m.handle_event(WmEvent::WindowDestroyed { window: 99 });
    assert_eq!(retile, direct);
}

#[test]
fn insert_then_remove_restores_the_layout() {
    let mut m = manager();
    m.handle_event(WmEvent::WindowCreated { window: 1 });
    m.handle_event(WmEvent::WindowCreated { window: 2 });
    let before: Vec<WindowData> = m.registry.as_ordered_list().clone();

    m.handle_event(WmEvent::WindowCreated { window: 3 });
    m.handle_event(WmEvent::WindowDestroyed { window: 3 });
    let after: Vec<WindowData> = m.registry.as_ordered_list().clone();
    assert_eq!(before, after);
}

#[test]
fn destroy_of_untracked_window_is_silent() {
    let mut m = manager();
    m.handle_event(WmEvent::WindowCreated { window: 1 });
    let cmds = m.handle_event(WmEvent::WindowDestroyed { window: 42 });
    // The registry is untouched; the pass still re-emits the layout.
    assert_eq!(m.registry.as_ordered_list().len(), 1);
    assert_eq!(cmds, vec![configure(1, 0, 0, 1920, 1080)]);
}

#[test]
fn destroy_of_last_window_emits_nothing() {
    let mut m = manager();
    m.handle_event(WmEvent::WindowCreated { window: 1 });
    let cmds = m.handle_event(WmEvent::WindowDestroyed { window: 1 });
    assert!(cmds.is_empty());
    assert!(m.registry.as_ordered_list().is_empty());
}

#[test]
fn raise_chord_restacks_without_retiling() {
    let mut m = manager();
    m.handle_event(WmEvent::WindowCreated { window: 1 });
    let cmds = m.handle_event(WmEvent::KeyPress { window: 1 });
    assert_eq!(cmds, vec![Command::RaiseAbove { window: 1 }]);
    assert_eq!(m.registry.as_ordered_list().len(), 1);
}

#[test]
fn move_drag_scenario() {
    // Press the move button on a window at (100, 100, 200, 200) with the
    // pointer at (150, 150); motion to (170, 160) shifts the window by the
    // delta; after release, motion is a no-op again.
    let mut m = manager();
    let cmds = m.handle_event(press(MOVE_BUTTON, 7, 150, 150, (100, 100, 200, 200)));
    assert!(cmds.is_empty());

    let cmds = m.handle_event(WmEvent::Motion { root_x: 170, root_y: 160 });
    assert_eq!(cmds, vec![configure(7, 120, 110, 200, 200)]);

    let cmds = m.handle_event(WmEvent::ButtonRelease);
    assert!(cmds.is_empty());
    let cmds = m.handle_event(WmEvent::Motion { root_x: 500, root_y: 500 });
    assert!(cmds.is_empty());
}

#[test]
fn move_drag_only_start_and_end_matter() {
    let mut wandering = manager();
    wandering.handle_event(press(MOVE_BUTTON, 7, 150, 150, (100, 100, 200, 200)));
    wandering.handle_event(WmEvent::Motion { root_x: -300, root_y: 900 });
    wandering.handle_event(WmEvent::Motion { root_x: 40, root_y: -11 });
    let roundabout = wandering.handle_event(WmEvent::Motion { root_x: 170, root_y: 160 });

    let mut straight = manager();
    straight.handle_event(press(MOVE_BUTTON, 7, 150, 150, (100, 100, 200, 200)));
    let direct = straight.handle_event(WmEvent::Motion { root_x: 170, root_y: 160 });

    assert_eq!(roundabout, direct);
    assert_eq!(direct, vec![configure(7, 120, 110, 200, 200)]);
}

#[test]
fn resize_drag_grows_and_keeps_position() {
    let mut m = manager();
    m.handle_event(press(RESIZE_BUTTON, 7, 150, 150, (100, 100, 200, 200)));
    let cmds = m.handle_event(WmEvent::Motion { root_x: 180, root_y: 140 });
    assert_eq!(cmds, vec![configure(7, 100, 100, 230, 190)]);
}

#[test]
fn resize_drag_clamps_at_one_pixel() {
    let mut m = manager();
    m.handle_event(press(RESIZE_BUTTON, 7, 0, 0, (100, 100, 200, 200)));
    // The delta is as far negative as i16 pointer coordinates can go.
    let cmds = m.handle_event(WmEvent::Motion { root_x: -32768, root_y: -32768 });
    assert_eq!(cmds, vec![configure(7, 100, 100, 1, 1)]);
}

#[test]
fn unmapped_button_is_ignored() {
    // Policy: a press of any button other than move or resize enters no
    // drag, so the following motion is a no-op.
    let mut m = manager();
    let cmds = m.handle_event(press(2, 7, 150, 150, (100, 100, 200, 200)));
    assert!(cmds.is_empty());
    let cmds = m.handle_event(WmEvent::Motion { root_x: 170, root_y: 160 });
    assert!(cmds.is_empty());
}

#[test]
fn second_press_overwrites_the_drag() {
    let mut m = manager();
    m.handle_event(press(MOVE_BUTTON, 7, 150, 150, (100, 100, 200, 200)));
    m.handle_event(press(MOVE_BUTTON, 8, 10, 10, (0, 0, 50, 50)));
    let cmds = m.handle_event(WmEvent::Motion { root_x: 15, root_y: 12 });
    assert_eq!(cmds, vec![configure(8, 5, 2, 50, 50)]);
}

#[test]
fn destroying_the_dragged_window_clears_the_drag() {
    let mut m = manager();
    m.handle_event(WmEvent::WindowCreated { window: 7 });
    m.handle_event(press(MOVE_BUTTON, 7, 150, 150, (100, 100, 200, 200)));
    m.handle_event(WmEvent::WindowDestroyed { window: 7 });
    // The stale drag is gone: motion no longer targets the dead window.
    let cmds = m.handle_event(WmEvent::Motion { root_x: 170, root_y: 160 });
    assert!(cmds.is_empty());
}

#[test]
fn duplicate_creation_produces_duplicate_entries() {
    let mut m = manager();
    m.handle_event(WmEvent::WindowCreated { window: 1 });
    m.handle_event(WmEvent::WindowCreated { window: 1 });
    assert_eq!(m.registry.as_ordered_list().len(), 2);
    // A destroy removes every entry with the id.
    m.handle_event(WmEvent::WindowDestroyed { window: 1 });
    assert!(m.registry.as_ordered_list().is_empty());
}
