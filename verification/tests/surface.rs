//! The virtual surface's draw-session state machine and resize rules.

use d1d1test::comptr::ObjectTable;
use d1d1test::dcomp::{create_device_chain, ChainScript, DCompositionVirtualSurface};
use d1d1test::draw::{DrawCmd, Frame, Rect};

fn make_surface(t: &mut ObjectTable, w: u32, h: u32) -> DCompositionVirtualSurface {
    let s = ChainScript { hr_d3d11: 0, hr_query_dxgi: 0, hr_d2d1: 0, hr_dcomp: 0 };
    let (d3d11, d2d1, dcomp) = create_device_chain(t, s).unwrap();
    let surface = dcomp.create_virtual_surface(t, w, h, 0).unwrap();
    d3d11.release(t);
    d2d1.release(t);
    dcomp.release(t);
    surface
}

#[test]
fn begin_then_end_returns_to_idle_and_commits_the_picture() {
    let mut t = ObjectTable::new();
    let mut surface = make_surface(&mut t, 500, 400);
    assert!(surface.is_idle());
    assert_eq!(surface.size(), (500, 400));

    let mut rt = surface.begin_draw(None, 10, 20, 0).unwrap();
    assert!(!surface.is_idle());
    rt.fill_rectangle(Rect { left: 0, top: 0, right: 9999, bottom: 9999 });
    rt.draw_line(0, 0, 9999, 9999);
    surface.end_draw(rt, 0).unwrap();
    assert!(surface.is_idle());

    let content = surface.content_cmds();
    assert_eq!(content.len(), 2);
    assert_eq!(
        content[0],
        DrawCmd::FillRect { rect: Rect { left: 10, top: 20, right: 510, bottom: 420 } }
    );
    assert_eq!(content[1], DrawCmd::Line { x0: 10, y0: 20, x1: 509, y1: 419 });
}

#[test]
fn emitted_coordinates_stay_within_the_session_bounds() {
    // After a resize to (300, 200), every coordinate a session emits lies in
    // [0, 300) x [0, 200) once translated back by the session's offset;
    // a rectangle's exclusive edges reach at most 300 and 200.
    let mut t = ObjectTable::new();
    let mut surface = make_surface(&mut t, 500, 400);
    surface.resize(300, 200, 0).unwrap();

    let mut rt = surface.begin_draw(None, 64, 32, 0).unwrap();
    rt.fill_rectangle(Rect { left: 250, top: 150, right: 10_000, bottom: 10_000 });
    rt.draw_line(0, 0, 10_000, 10_000);
    rt.draw_text(Rect { left: 10, top: 500, right: 910, bottom: 580 });
    surface.end_draw(rt, 0).unwrap();

    for cmd in surface.content_cmds() {
        match *cmd {
            DrawCmd::FillRect { rect } | DrawCmd::Text { rect } => {
                assert!(64 <= rect.left && rect.left <= rect.right && rect.right <= 64 + 300);
                assert!(32 <= rect.top && rect.top <= rect.bottom && rect.bottom <= 32 + 200);
            }
            DrawCmd::Line { x0, y0, x1, y1 } => {
                assert!(64 <= x0 && x0 < 64 + 300 && 64 <= x1 && x1 < 64 + 300);
                assert!(32 <= y0 && y0 < 32 + 200 && 32 <= y1 && y1 < 32 + 200);
            }
        }
    }
}

#[test]
fn begin_draw_failure_stays_idle() {
    let mut t = ObjectTable::new();
    let mut surface = make_surface(&mut t, 500, 400);
    let e = surface.begin_draw(None, 0, 0, -1).unwrap_err();
    assert_eq!(e, -1);
    assert!(surface.is_idle());
    assert_eq!(surface.size(), (500, 400));
}

#[test]
fn end_draw_failure_is_reported_and_keeps_the_old_picture() {
    let mut t = ObjectTable::new();
    let mut surface = make_surface(&mut t, 500, 400);

    let mut rt = surface.begin_draw(None, 0, 0, 0).unwrap();
    rt.fill_rectangle(Rect { left: 0, top: 0, right: 100, bottom: 100 });
    surface.end_draw(rt, 0).unwrap();
    assert_eq!(surface.content_cmds().len(), 1);

    let mut rt = surface.begin_draw(None, 0, 0, 0).unwrap();
    rt.draw_line(0, 0, 50, 50);
    rt.draw_line(1, 1, 50, 50);
    let e = surface.end_draw(rt, -3).unwrap_err();
    assert_eq!(e, -3);
    assert!(surface.is_idle());
    assert_eq!(surface.content_cmds().len(), 1);
}

#[test]
fn resize_changes_dimensions_and_clears_the_picture() {
    let mut t = ObjectTable::new();
    let mut surface = make_surface(&mut t, 500, 400);
    let mut rt = surface.begin_draw(None, 0, 0, 0).unwrap();
    rt.fill_rectangle(Rect { left: 0, top: 0, right: 10, bottom: 10 });
    surface.end_draw(rt, 0).unwrap();
    assert_eq!(surface.content_cmds().len(), 1);

    surface.resize(300, 200, 0).unwrap();
    assert_eq!(surface.size(), (300, 200));
    assert_eq!(surface.content_cmds().len(), 0);
    assert!(surface.is_idle());
}

#[test]
fn resize_failure_retains_the_previous_dimensions_in_full() {
    let mut t = ObjectTable::new();
    let mut surface = make_surface(&mut t, 500, 400);
    let mut rt = surface.begin_draw(None, 0, 0, 0).unwrap();
    rt.fill_rectangle(Rect { left: 0, top: 0, right: 10, bottom: 10 });
    surface.end_draw(rt, 0).unwrap();

    let e = surface.resize(300, 200, -7).unwrap_err();
    assert_eq!(e, -7);
    assert_eq!(surface.size(), (500, 400));
    assert_eq!(surface.content_cmds().len(), 1);
}

#[test]
fn region_session_is_scoped_to_the_sub_rectangle() {
    let mut t = ObjectTable::new();
    let mut surface = make_surface(&mut t, 500, 400);
    let rect = Rect { left: 10, top: 10, right: 110, bottom: 60 };
    let rt = surface.begin_draw(Some(rect), 5, 6, 0).unwrap();
    assert_eq!(rt.get_frame(), Frame { off_x: 5, off_y: 6, width: 100, height: 50 });
    assert_eq!(rt.get_size(), (100, 50));
    surface.end_draw(rt, 0).unwrap();
    assert!(surface.is_idle());
}
