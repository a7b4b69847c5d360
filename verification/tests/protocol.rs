//! The window protocols: construction, resize, pointer-move, teardown.

use d1d1test::comptr::ObjectTable;
use d1d1test::dcomp::ChainScript;
use d1d1test::draw::DrawCmd;
use d1d1test::main_win::{
    client_dims, create_main, CreationScript, DrawReplies, Event, MainWin, MainWinState,
};
use d1d1test::util::Error;
use d1d1test::window::{win_proc_dispatch, WindowRegistry};

fn ok_creation() -> CreationScript {
    CreationScript {
        chain: ChainScript { hr_d3d11: 0, hr_query_dxgi: 0, hr_d2d1: 0, hr_dcomp: 0 },
        hr_target: 0,
        hr_visual: 0,
        hr_surface: 0,
        hr_set_content: 0,
        hr_set_root: 0,
    }
}

fn ok_draw() -> DrawReplies {
    DrawReplies {
        hr_begin: 0,
        offset_x: 0,
        offset_y: 0,
        hr_end: 0,
        hr_brush_fg: 0,
        hr_brush_bg: 0,
        hr_text_format: 0,
    }
}

#[test]
fn client_dims_subtracts_the_queried_chrome_padding() {
    // An outer size of (826, 671) with a chrome padding of (26, 71) gives
    // client dimensions of exactly (800, 600).
    assert_eq!(client_dims(826, 671, 26, 71), (800, 600));
}

#[test]
fn client_dims_saturates_when_the_padding_exceeds_the_outer_size() {
    assert_eq!(client_dims(20, 30, 26, 71), (0, 0));
}

#[test]
fn create_main_wires_the_whole_tree() {
    let mut t = ObjectTable::new();
    let stuff = create_main(&mut t, ok_creation(), 7, 500, 400).unwrap();
    assert_eq!(t.num_objects(), 6);
    // The chain's intermediate devices are released once the tree stands.
    assert_eq!(t.ref_count(0), 0);
    assert_eq!(t.ref_count(1), 0);
    assert_eq!(t.ref_count(2), 1);
    assert_eq!(t.ref_count(3), 1);
    // The visual is held by the state and by the target's root reference;
    // the surface by the state and by the visual's content reference.
    assert_eq!(t.ref_count(4), 2);
    assert_eq!(t.ref_count(5), 2);

    assert_eq!(stuff.target.window_id(), 7);
    assert_eq!(stuff.target.root_id(), Some(4));
    assert_eq!(stuff.surface.object_id(), 5);
    assert_eq!(stuff.surface.size(), (500, 400));
    assert!(stuff.surface.is_idle());
    assert_eq!(stuff.visual.pending(), (0, 0));
    assert_eq!(stuff.visual.visible(), (0, 0));
    stuff.release(&mut t);
    for id in 0..t.num_objects() {
        assert_eq!(t.ref_count(id), 0);
    }
}

#[test]
fn create_main_failure_returns_the_exact_stage_error_and_unwinds() {
    let mut t = ObjectTable::new();
    let mut s = ok_creation();
    s.hr_set_content = -406;
    let e = create_main(&mut t, s, 7, 500, 400).unwrap_err();
    assert_eq!(e, Error::Hr(-406));
    assert_eq!(t.num_objects(), 6);
    for id in 0..t.num_objects() {
        assert_eq!(t.ref_count(id), 0);
    }
}

#[test]
fn create_main_chain_failure_propagates_unchanged() {
    let mut t = ObjectTable::new();
    let mut s = ok_creation();
    s.chain.hr_d2d1 = -202;
    let e = create_main(&mut t, s, 7, 500, 400).unwrap_err();
    assert_eq!(e, Error::Hr(-202));
}

#[test]
fn error_from_wraps_a_status_code() {
    assert_eq!(Error::from(-5), Error::Hr(-5));
    assert_ne!(Error::Hr(-5), Error::Null);
}

#[test]
fn resize_protocol_resizes_rerenders_and_commits() {
    // The full lifecycle through the dispatch registry: window created,
    // then one pre-resize notification carrying outer size (826, 671) and
    // queried padding (26, 71); the surface ends up exactly 800 x 600 with
    // the scene re-rendered at that size.
    let mut t = ObjectTable::new();
    let mut reg = WindowRegistry::new();
    let state = MainWinState::new(&mut t, 0, 0);
    let win = MainWin::new(state);

    let created = Event::Created { hwnd: 7, width: 500, height: 400, script: ok_creation() };
    assert_eq!(win_proc_dispatch(&mut reg, &mut t, 7, created, Some(win)), 0);
    assert_eq!(reg.num_windows(), 1);

    let draw = DrawReplies { offset_x: 64, offset_y: 32, ..ok_draw() };
    let resize = Event::PreResize {
        outer_w: 826,
        outer_h: 671,
        pad_w: 26,
        pad_h: 71,
        hr_resize: 0,
        draw,
        hr_commit: 0,
    };
    assert_eq!(win_proc_dispatch(&mut reg, &mut t, 7, resize, None), 0);

    let entry = reg.entry_at(0);
    let stuff = entry.1.state_ref().stuff_ref();
    assert_eq!(stuff.surface.size(), (800, 600));
    assert!(stuff.surface.is_idle());

    let content = stuff.surface.content_cmds();
    assert_eq!(content.len(), 62);
    assert_eq!(
        content[0],
        DrawCmd::FillRect {
            rect: d1d1test::draw::Rect { left: 64, top: 32, right: 864, bottom: 632 }
        }
    );
    assert_eq!(content[1], DrawCmd::Line { x0: 64, y0: 32, x1: 863, y1: 631 });
    // First text row: (10, 10, 910, 90) clipped to 800 x 600, shifted by
    // the session offset.
    assert_eq!(
        content[2],
        DrawCmd::Text { rect: d1d1test::draw::Rect { left: 74, top: 42, right: 864, bottom: 122 } }
    );
    // Last text row lies below the surface and collapses onto its edge.
    assert_eq!(
        content[61],
        DrawCmd::Text {
            rect: d1d1test::draw::Rect { left: 74, top: 632, right: 864, bottom: 632 }
        }
    );
}

#[test]
fn resize_failure_keeps_the_old_dimensions_and_still_rerenders() {
    let mut t = ObjectTable::new();
    let mut reg = WindowRegistry::new();
    let win = MainWin::new(MainWinState::new(&mut t, 0, 0));
    let created = Event::Created { hwnd: 3, width: 500, height: 400, script: ok_creation() };
    win_proc_dispatch(&mut reg, &mut t, 3, created, Some(win));

    let resize = Event::PreResize {
        outer_w: 826,
        outer_h: 671,
        pad_w: 26,
        pad_h: 71,
        hr_resize: -9,
        draw: ok_draw(),
        hr_commit: 0,
    };
    win_proc_dispatch(&mut reg, &mut t, 3, resize, None);
    let entry = reg.entry_at(0);
    let stuff = entry.1.state_ref().stuff_ref();
    assert_eq!(stuff.surface.size(), (500, 400));
    assert_eq!(stuff.surface.content_cmds().len(), 62);
}

#[test]
fn resize_with_failed_rerender_is_recoverable() {
    // The draw session's begin fails during the resize protocol: the
    // resize itself still takes effect, the surface stays Idle with the
    // blank picture the resize left, and the notification completes.
    let mut t = ObjectTable::new();
    let mut reg = WindowRegistry::new();
    let win = MainWin::new(MainWinState::new(&mut t, 0, 0));
    let created = Event::Created { hwnd: 4, width: 500, height: 400, script: ok_creation() };
    win_proc_dispatch(&mut reg, &mut t, 4, created, Some(win));

    let resize = Event::PreResize {
        outer_w: 826,
        outer_h: 671,
        pad_w: 26,
        pad_h: 71,
        hr_resize: 0,
        draw: DrawReplies { hr_begin: -8, ..ok_draw() },
        hr_commit: 0,
    };
    assert_eq!(win_proc_dispatch(&mut reg, &mut t, 4, resize, None), 0);
    let entry = reg.entry_at(0);
    let stuff = entry.1.state_ref().stuff_ref();
    assert_eq!(stuff.surface.size(), (800, 600));
    assert!(stuff.surface.is_idle());
    assert_eq!(stuff.surface.content_cmds().len(), 0);
}

#[test]
fn render_dcomp_reports_an_end_failure_and_keeps_the_picture() {
    let mut t = ObjectTable::new();
    let mut state = MainWinState::new(&mut t, 0, 0);
    let stuff = create_main(&mut t, ok_creation(), 7, 500, 400).unwrap();
    state.set(stuff);

    state.render_dcomp(&mut t, 500, 400, &ok_draw()).unwrap();
    assert_eq!(state.stuff_ref().surface.content_cmds().len(), 62);

    let bad_end = DrawReplies { hr_end: -4, ..ok_draw() };
    let e = state.render_dcomp(&mut t, 500, 400, &bad_end).unwrap_err();
    assert_eq!(e, -4);
    assert!(state.stuff_ref().surface.is_idle());
    assert_eq!(state.stuff_ref().surface.content_cmds().len(), 62);

    let bad_begin = DrawReplies { hr_begin: -8, ..ok_draw() };
    let e = state.render_dcomp(&mut t, 500, 400, &bad_begin).unwrap_err();
    assert_eq!(e, -8);
    assert!(state.stuff_ref().surface.is_idle());
    assert_eq!(state.stuff_ref().surface.content_cmds().len(), 62);
}

#[test]
fn two_identical_pointer_moves_then_commit_land_on_one_position() {
    // Two consecutive pointer-move updates with identical coordinates,
    // each followed by the protocol's commit, leave the visual at that
    // single position.
    let mut t = ObjectTable::new();
    let mut reg = WindowRegistry::new();
    let win = MainWin::new(MainWinState::new(&mut t, 0, 0));
    let created = Event::Created { hwnd: 9, width: 500, height: 400, script: ok_creation() };
    win_proc_dispatch(&mut reg, &mut t, 9, created, Some(win));

    let mv = Event::PointerMove { x: 100, y: 50, hr_commit: 0 };
    assert_eq!(win_proc_dispatch(&mut reg, &mut t, 9, mv, None), 0);
    assert_eq!(win_proc_dispatch(&mut reg, &mut t, 9, mv, None), 0);

    let entry = reg.entry_at(0);
    let stuff = entry.1.state_ref().stuff_ref();
    assert_eq!(stuff.visual.pending(), (100, 50));
    assert_eq!(stuff.visual.visible(), (100, 50));
}

#[test]
fn pointer_move_without_commit_success_shows_nothing() {
    let mut t = ObjectTable::new();
    let mut reg = WindowRegistry::new();
    let win = MainWin::new(MainWinState::new(&mut t, 0, 0));
    let created = Event::Created { hwnd: 9, width: 500, height: 400, script: ok_creation() };
    win_proc_dispatch(&mut reg, &mut t, 9, created, Some(win));

    let mv = Event::PointerMove { x: 41, y: 42, hr_commit: -1 };
    win_proc_dispatch(&mut reg, &mut t, 9, mv, None);
    let entry = reg.entry_at(0);
    let stuff = entry.1.state_ref().stuff_ref();
    assert_eq!(stuff.visual.pending(), (41, 42));
    assert_eq!(stuff.visual.visible(), (0, 0));
}

#[test]
fn destroy_releases_every_reference_and_unregisters() {
    let mut t = ObjectTable::new();
    let mut reg = WindowRegistry::new();
    let win = MainWin::new(MainWinState::new(&mut t, 0, 0));
    let created = Event::Created { hwnd: 5, width: 500, height: 400, script: ok_creation() };
    win_proc_dispatch(&mut reg, &mut t, 5, created, Some(win));
    let resize = Event::PreResize {
        outer_w: 826,
        outer_h: 671,
        pad_w: 26,
        pad_h: 71,
        hr_resize: 0,
        draw: ok_draw(),
        hr_commit: 0,
    };
    win_proc_dispatch(&mut reg, &mut t, 5, resize, None);

    win_proc_dispatch(&mut reg, &mut t, 5, Event::Destroyed, None);
    assert_eq!(reg.num_windows(), 0);
    // The factories are still owned by the handler the registry dropped;
    // every reference the tree and the resources held is gone.
    for id in 2..t.num_objects() {
        assert_eq!(t.ref_count(id), 0);
    }
}

#[test]
fn creation_failure_reports_through_dispatch() {
    let mut t = ObjectTable::new();
    let mut reg = WindowRegistry::new();
    let win = MainWin::new(MainWinState::new(&mut t, 0, 0));
    let mut script = ok_creation();
    script.hr_surface = -77;
    let created = Event::Created { hwnd: 11, width: 500, height: 400, script };
    assert_eq!(win_proc_dispatch(&mut reg, &mut t, 11, created, Some(win)), -1);
}

#[test]
fn dispatch_without_a_registered_window_defaults() {
    let mut t = ObjectTable::new();
    let mut reg = WindowRegistry::new();
    let mv = Event::PointerMove { x: 1, y: 2, hr_commit: 0 };
    assert_eq!(win_proc_dispatch(&mut reg, &mut t, 99, mv, None), 0);
}

#[test]
fn render_failure_invalidates_the_swap_chain_target() {
    let mut t = ObjectTable::new();
    let mut state = MainWinState::new(&mut t, 0, 0);
    let stuff = create_main(&mut t, ok_creation(), 7, 500, 400).unwrap();
    state.set(stuff);

    state.rebuild_render_target(200, 100, 0, 0);
    assert!(state.has_render_target());

    let bad_end = DrawReplies { hr_end: -4, ..ok_draw() };
    state.render(&mut t, true, &bad_end);
    assert!(!state.has_render_target());

    state.rebuild_render_target(200, 100, 0, 0);
    state.render(&mut t, false, &ok_draw());
    assert!(state.has_render_target());
    // Without the indicator the scene has no diagonal line.
    assert_eq!(state.render_target_ref().commands().len(), 61);
}

#[test]
fn rebuild_render_target_failure_modes() {
    let mut t = ObjectTable::new();
    let mut state = MainWinState::new(&mut t, 0, 0);
    let stuff = create_main(&mut t, ok_creation(), 7, 500, 400).unwrap();
    state.set(stuff);

    // The backing could not be obtained: nothing changes.
    state.rebuild_render_target(200, 100, -1, 0);
    assert!(!state.has_render_target());

    state.rebuild_render_target(200, 100, 0, 0);
    assert!(state.has_render_target());

    // The target could not be created over the new backing: absent until
    // the next attempt.
    state.rebuild_render_target(200, 100, 0, -2);
    assert!(!state.has_render_target());
}
