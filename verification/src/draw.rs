//! The drawing context of a draw session.
//!
//! Drawing commands are only reachable through a [`RenderTarget`], which a
//! draw session hands out; there is no independent way to obtain one. The
//! context records every command it accepts, clipped to the session's region
//! and translated by the session's offset — the surface may be backed by a
//! tiled allocation whose origin does not coincide with logical (0, 0).

use vstd::prelude::*;
use crate::util::succeeded;

verus! {

/// An axis-aligned rectangle in pixels; the right and bottom edges are
/// exclusive.
#[derive(Clone, Copy, Debug, PartialEq, Eq, Structural)]
pub struct Rect {
    pub left: u32,
    pub top: u32,
    pub right: u32,
    pub bottom: u32,
}

impl Rect {
    pub open spec fn wf(self) -> bool {
        self.left <= self.right && self.top <= self.bottom
    }

    /// True when the rectangle lies within a surface of the given size.
    pub open spec fn within(self, width: u32, height: u32) -> bool {
        self.right <= width && self.bottom <= height
    }

    /// True when the rectangle covers at least one pixel.
    pub open spec fn nonempty(self) -> bool {
        self.left < self.right && self.top < self.bottom
    }
}

/// One recorded drawing command, in emitted (already translated)
/// coordinates.
#[derive(Clone, Copy, Debug, PartialEq, Eq, Structural)]
pub enum DrawCmd {
    /// A filled rectangle.
    FillRect { rect: Rect },
    /// A line between two points.
    Line { x0: u32, y0: u32, x1: u32, y1: u32 },
    /// One laid-out run of text, by its layout box.
    Text { rect: Rect },
}

pub open spec fn min_u32(a: u32, b: u32) -> u32 {
    if a <= b {
        a
    } else {
        b
    }
}

/// Where drawing commands land: the session's translation and clip size.
#[derive(Clone, Copy, Debug, PartialEq, Eq, Structural)]
pub struct Frame {
    /// Translation applied to every coordinate.
    pub off_x: u32,
    pub off_y: u32,
    /// Size of the drawable region, in logical pixels.
    pub width: u32,
    pub height: u32,
}

impl Frame {
    /// A frame is drawable when it has at least one pixel and its emitted
    /// coordinates fit the coordinate type.
    pub open spec fn wf(self) -> bool {
        &&& self.width >= 1
        &&& self.height >= 1
        &&& self.off_x + self.width <= u32::MAX
        &&& self.off_y + self.height <= u32::MAX
    }
}

/// A rectangle clipped to the frame's region and translated by its offset;
/// edges given out of order are normalised so the result is well-formed.
pub open spec fn clip_rect(r: Rect, f: Frame) -> Rect {
    Rect {
        left: (f.off_x + min_u32(min_u32(r.left, r.right), f.width)) as u32,
        top: (f.off_y + min_u32(min_u32(r.top, r.bottom), f.height)) as u32,
        right: (f.off_x + min_u32(r.right, f.width)) as u32,
        bottom: (f.off_y + min_u32(r.bottom, f.height)) as u32,
    }
}

/// A point clamped inside the frame's region and translated by its offset.
pub open spec fn clip_point_x(x: u32, f: Frame) -> u32 {
    (f.off_x + min_u32(x, (f.width - 1) as u32)) as u32
}

pub open spec fn clip_point_y(y: u32, f: Frame) -> u32 {
    (f.off_y + min_u32(y, (f.height - 1) as u32)) as u32
}

/// True when an emitted rectangle stays within the frame: edges inside
/// `[off, off + size]`.
pub open spec fn rect_within_frame(r: Rect, f: Frame) -> bool {
    &&& f.off_x <= r.left <= r.right <= f.off_x + f.width
    &&& f.off_y <= r.top <= r.bottom <= f.off_y + f.height
}

/// True when an emitted point stays within the frame: strictly inside
/// `[off, off + size)`.
pub open spec fn point_within_frame(x: u32, y: u32, f: Frame) -> bool {
    &&& f.off_x <= x < f.off_x + f.width
    &&& f.off_y <= y < f.off_y + f.height
}

/// True when an emitted command stays within the frame.
pub open spec fn cmd_within_frame(c: DrawCmd, f: Frame) -> bool {
    match c {
        DrawCmd::FillRect { rect } => rect_within_frame(rect, f),
        DrawCmd::Line { x0, y0, x1, y1 } => point_within_frame(x0, y0, f) && point_within_frame(
            x1,
            y1,
            f,
        ),
        DrawCmd::Text { rect } => rect_within_frame(rect, f),
    }
}

/// The drawing context of one draw session (or of a swap-chain render
/// target). Commands issued through it are clipped and translated; the
/// recorded batch is committed by the session's end-draw.
#[derive(Debug)]
pub struct RenderTarget {
    /// The surface object this context draws into, if it belongs to a
    /// surface draw session.
    session: Option<usize>,
    frame: Frame,
    recording: bool,
    commands: Vec<DrawCmd>,
}

impl RenderTarget {
    pub closed spec fn session_id(self) -> Option<usize> {
        self.session
    }

    pub closed spec fn frame(self) -> Frame {
        self.frame
    }

    pub closed spec fn is_recording(self) -> bool {
        self.recording
    }

    /// The commands recorded so far, in order, in emitted coordinates.
    pub closed spec fn cmds(self) -> Seq<DrawCmd> {
        self.commands@
    }

    /// Every recorded command stays within the session's frame.
    pub open spec fn wf(self) -> bool {
        &&& self.frame().wf()
        &&& forall|i: int|
            0 <= i < self.cmds().len() ==> cmd_within_frame(#[trigger] self.cmds()[i], self.frame())
    }

    /// The parts of the context that drawing never changes.
    pub open spec fn same_session(self, other: RenderTarget) -> bool {
        self.session_id() == other.session_id() && self.frame() == other.frame()
    }

    /// Makes a context for a session with the given frame; the batch starts
    /// empty and recording.
    pub(crate) fn open_context(session: Option<usize>, frame: Frame) -> (rt: RenderTarget)
        requires
            frame.wf(),
        ensures
            rt.wf(),
            rt.session_id() == session,
            rt.frame() == frame,
            rt.is_recording(),
            rt.cmds() == Seq::<DrawCmd>::empty(),
    {
        RenderTarget { session, frame, recording: true, commands: Vec::new() }
    }

    pub fn get_size(&self) -> (r: (u32, u32))
        ensures
            r.0 == self.frame().width,
            r.1 == self.frame().height,
    {
        (self.frame.width, self.frame.height)
    }

    /// Starts a new batch on a reusable render target, discarding any
    /// previously recorded batch.
    pub fn begin_draw(&mut self)
        requires
            old(self).wf(),
            !old(self).is_recording(),
        ensures
            final(self).wf(),
            final(self).same_session(*old(self)),
            final(self).is_recording(),
            final(self).cmds() == Seq::<DrawCmd>::empty(),
    {
        self.recording = true;
        self.commands = Vec::new();
    }

    /// Ends the batch. A failure is reported to the caller; the recorded
    /// batch is kept either way so the session can decide what to commit.
    pub fn end_draw(&mut self, hr: i32) -> (r: Result<(), i32>)
        requires
            old(self).wf(),
            old(self).is_recording(),
        ensures
            final(self).wf(),
            final(self).same_session(*old(self)),
            !final(self).is_recording(),
            final(self).cmds() == old(self).cmds(),
            succeeded(hr) ==> r == Ok::<(), i32>(()),
            !succeeded(hr) ==> r == Err::<(), i32>(hr),
    {
        self.recording = false;
        proof {
            assert forall|i: int| 0 <= i < self.cmds().len() implies cmd_within_frame(
                #[trigger] self.cmds()[i],
                self.frame(),
            ) by {
                assert(self.cmds()[i] == old(self).cmds()[i]);
            }
        }
        if succeeded(hr) {
            Ok(())
        } else {
            Err(hr)
        }
    }

    fn min_coord(a: u32, b: u32) -> (r: u32)
        ensures
            r == min_u32(a, b),
    {
        if a <= b {
            a
        } else {
            b
        }
    }

    /// Records a filled rectangle, clipped to the frame and translated by
    /// its offset.
    pub fn fill_rectangle(&mut self, rect: Rect)
        requires
            old(self).wf(),
            old(self).is_recording(),
        ensures
            final(self).wf(),
            final(self).same_session(*old(self)),
            final(self).is_recording(),
            final(self).cmds() == old(self).cmds().push(
                DrawCmd::FillRect { rect: clip_rect(rect, old(self).frame()) },
            ),
    {
        let c = self.clipped_rect(rect);
        self.commands.push(DrawCmd::FillRect { rect: c });
        proof {
            assert forall|i: int| 0 <= i < self.cmds().len() implies cmd_within_frame(
                #[trigger] self.cmds()[i],
                self.frame(),
            ) by {
                if i < old(self).cmds().len() {
                    assert(self.cmds()[i] == old(self).cmds()[i]);
                } else {
                    assert(self.cmds()[i] == DrawCmd::FillRect { rect: c });
                }
            }
        }
    }

    /// Records one laid-out run of text by its layout box, clipped to the
    /// frame and translated by its offset.
    pub fn draw_text(&mut self, rect: Rect)
        requires
            old(self).wf(),
            old(self).is_recording(),
        ensures
            final(self).wf(),
            final(self).same_session(*old(self)),
            final(self).is_recording(),
            final(self).cmds() == old(self).cmds().push(
                DrawCmd::Text { rect: clip_rect(rect, old(self).frame()) },
            ),
    {
        let c = self.clipped_rect(rect);
        self.commands.push(DrawCmd::Text { rect: c });
        proof {
            assert forall|i: int| 0 <= i < self.cmds().len() implies cmd_within_frame(
                #[trigger] self.cmds()[i],
                self.frame(),
            ) by {
                if i < old(self).cmds().len() {
                    assert(self.cmds()[i] == old(self).cmds()[i]);
                } else {
                    assert(self.cmds()[i] == DrawCmd::Text { rect: c });
                }
            }
        }
    }

    /// Records a line; each endpoint is clamped inside the frame and
    /// translated by its offset.
    pub fn draw_line(&mut self, x0: u32, y0: u32, x1: u32, y1: u32)
        requires
            old(self).wf(),
            old(self).is_recording(),
        ensures
            final(self).wf(),
            final(self).same_session(*old(self)),
            final(self).is_recording(),
            final(self).cmds() == old(self).cmds().push(
                DrawCmd::Line {
                    x0: clip_point_x(x0, old(self).frame()),
                    y0: clip_point_y(y0, old(self).frame()),
                    x1: clip_point_x(x1, old(self).frame()),
                    y1: clip_point_y(y1, old(self).frame()),
                },
            ),
    {
        let f = self.frame;
        let ex0 = f.off_x + Self::min_coord(x0, f.width - 1);
        let ey0 = f.off_y + Self::min_coord(y0, f.height - 1);
        let ex1 = f.off_x + Self::min_coord(x1, f.width - 1);
        let ey1 = f.off_y + Self::min_coord(y1, f.height - 1);
        self.commands.push(DrawCmd::Line { x0: ex0, y0: ey0, x1: ex1, y1: ey1 });
        proof {
            assert forall|i: int| 0 <= i < self.cmds().len() implies cmd_within_frame(
                #[trigger] self.cmds()[i],
                self.frame(),
            ) by {
                if i < old(self).cmds().len() {
                    assert(self.cmds()[i] == old(self).cmds()[i]);
                } else {
                    assert(self.cmds()[i] == DrawCmd::Line { x0: ex0, y0: ey0, x1: ex1, y1: ey1 });
                }
            }
        }
    }

    /// Makes a reusable render target over a fresh backing (a swap-chain
    /// buffer): empty and not yet recording.
    pub(crate) fn fresh_target(frame: Frame) -> (rt: RenderTarget)
        requires
            frame.wf(),
        ensures
            rt.wf(),
            rt.session_id() is None,
            rt.frame() == frame,
            !rt.is_recording(),
            rt.cmds() == Seq::<DrawCmd>::empty(),
    {
        RenderTarget { session: None, frame, recording: false, commands: Vec::new() }
    }

    /// The recorded batch, for inspection.
    pub fn commands(&self) -> (r: &Vec<DrawCmd>)
        ensures
            r@ == self.cmds(),
    {
        &self.commands
    }

    /// The session's translation and clip size.
    pub fn get_frame(&self) -> (r: Frame)
        ensures
            r == self.frame(),
    {
        self.frame
    }

    /// Hands the recorded batch over, consuming the context.
    pub(crate) fn into_commands(self) -> (r: Vec<DrawCmd>)
        ensures
            r@ == self.cmds(),
    {
        self.commands
    }

    fn clipped_rect(&self, rect: Rect) -> (c: Rect)
        requires
            self.frame().wf(),
        ensures
            c == clip_rect(rect, self.frame()),
    {
        let f = self.frame;
        Rect {
            left: f.off_x + Self::min_coord(Self::min_coord(rect.left, rect.right), f.width),
            top: f.off_y + Self::min_coord(Self::min_coord(rect.top, rect.bottom), f.height),
            right: f.off_x + Self::min_coord(rect.right, f.width),
            bottom: f.off_y + Self::min_coord(rect.bottom, f.height),
        }
    }
}

/// Once translated back by the session's offset, every coordinate a session
/// emits stays within `[0, width) x [0, height)` for the session's
/// dimensions — rectangles' exclusive edges reach at most `width` and
/// `height`. This holds of any context, after any sequence of drawing calls.
pub proof fn lemma_session_coords_in_bounds(rt: RenderTarget, i: int)
    requires
        rt.wf(),
        0 <= i < rt.cmds().len(),
    ensures
        match rt.cmds()[i] {
            DrawCmd::FillRect { rect } => {
                &&& 0 <= rect.left - rt.frame().off_x <= rect.right - rt.frame().off_x
                    <= rt.frame().width
                &&& 0 <= rect.top - rt.frame().off_y <= rect.bottom - rt.frame().off_y
                    <= rt.frame().height
            },
            DrawCmd::Line { x0, y0, x1, y1 } => {
                &&& 0 <= x0 - rt.frame().off_x < rt.frame().width
                &&& 0 <= y0 - rt.frame().off_y < rt.frame().height
                &&& 0 <= x1 - rt.frame().off_x < rt.frame().width
                &&& 0 <= y1 - rt.frame().off_y < rt.frame().height
            },
            DrawCmd::Text { rect } => {
                &&& 0 <= rect.left - rt.frame().off_x <= rect.right - rt.frame().off_x
                    <= rt.frame().width
                &&& 0 <= rect.top - rt.frame().off_y <= rect.bottom - rt.frame().off_y
                    <= rt.frame().height
            },
        },
{
    assert(cmd_within_frame(rt.cmds()[i], rt.frame()));
}

} // verus!
