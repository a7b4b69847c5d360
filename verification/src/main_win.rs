//! The window's state container and the event handlers that drive the
//! compositor: construction of the device graph and composition tree on
//! window creation, the resize protocol, the pointer-move protocol, and
//! teardown.

use vstd::prelude::*;
use crate::comptr::{ComPtr, ObjectTable};
use crate::dcomp::{
    chain_counts, chain_first_failure, create_device_chain, ChainScript,
    DCompositionDevice, DCompositionTarget, DCompositionVirtualSurface, DCompositionVisual,
    SurfaceState,
};
use crate::draw::{clip_point_x, clip_point_y, clip_rect, DrawCmd, Frame, Rect, RenderTarget};
use crate::load::{create_d2d1_factory, create_dwrite_factory};
use crate::util::{succeeded, Error};

verus! {

/// One client-area dimension: the window chrome padding subtracted from the
/// proposed outer dimension; an outer dimension smaller than the padding
/// yields zero.
pub open spec fn spec_client_dim(outer: u32, pad: u32) -> u32 {
    if outer >= pad {
        (outer - pad) as u32
    } else {
        0u32
    }
}

/// Client-area pixel dimensions from a proposed outer window size and the
/// window system's chrome padding (border plus caption), which is queried,
/// never hardcoded.
pub fn client_dims(outer_w: u32, outer_h: u32, pad_w: u32, pad_h: u32) -> (r: (u32, u32))
    ensures
        r.0 == spec_client_dim(outer_w, pad_w),
        r.1 == spec_client_dim(outer_h, pad_h),
{
    let w = if outer_w >= pad_w {
        outer_w - pad_w
    } else {
        0
    };
    let h = if outer_h >= pad_h {
        outer_h - pad_h
    } else {
        0
    };
    (w, h)
}

/// The layout box of text row `i` of the demo scene, in logical pixels.
pub open spec fn spec_row_rect(i: int) -> Rect {
    Rect { left: 10, top: (10 + 15 * i) as u32, right: 910, bottom: (90 + 15 * i) as u32 }
}

/// The fixed commands that open the scene: the background fill and, when
/// the indicator is on, one diagonal line across the content.
pub open spec fn scene_head(w: u32, h: u32, f: Frame, indicator: bool) -> Seq<DrawCmd> {
    let bg = seq![
        DrawCmd::FillRect { rect: clip_rect(Rect { left: 0, top: 0, right: w, bottom: h }, f) },
    ];
    if indicator {
        bg + seq![
            DrawCmd::Line {
                x0: clip_point_x(0, f),
                y0: clip_point_y(0, f),
                x1: clip_point_x(w, f),
                y1: clip_point_y(h, f),
            },
        ]
    } else {
        bg
    }
}

/// The first `n` text rows of the scene.
pub open spec fn scene_rows(f: Frame, n: int) -> Seq<DrawCmd> {
    Seq::new(n as nat, |i: int| DrawCmd::Text { rect: clip_rect(spec_row_rect(i), f) })
}

/// The whole demo scene at logical size `(w, h)`, as recorded through a
/// context with frame `f`: background, optional indicator line, and sixty
/// rows of text.
pub open spec fn scene_cmds(w: u32, h: u32, f: Frame, indicator: bool) -> Seq<DrawCmd> {
    scene_head(w, h, f, indicator) + scene_rows(f, 60)
}

/// Draws the demo scene at logical size `(w, h)` through the given context.
pub fn draw_scene(rt: &mut RenderTarget, w: u32, h: u32, indicator: bool)
    requires
        old(rt).wf(),
        old(rt).is_recording(),
    ensures
        final(rt).wf(),
        final(rt).is_recording(),
        final(rt).same_session(*old(rt)),
        final(rt).cmds() == old(rt).cmds() + scene_cmds(w, h, old(rt).frame(), indicator),
    {
    rt.fill_rectangle(Rect { left: 0, top: 0, right: w, bottom: h });
    if indicator {
        rt.draw_line(0, 0, w, h);
    }
    proof {
        assert(rt.cmds() =~= old(rt).cmds() + scene_head(w, h, old(rt).frame(), indicator)
            + scene_rows(old(rt).frame(), 0));
    }
    let mut i: u32 = 0;
    while i < 60
        invariant
            0 <= i <= 60,
            rt.wf(),
            rt.is_recording(),
            rt.same_session(*old(rt)),
            rt.cmds() == old(rt).cmds() + scene_head(w, h, old(rt).frame(), indicator)
                + scene_rows(old(rt).frame(), i as int),
        decreases 60 - i,
    {
        rt.draw_text(Rect { left: 10, top: 10 + 15 * i, right: 910, bottom: 90 + 15 * i });
        proof {
            assert(Rect { left: 10, top: (10 + 15 * i) as u32, right: 910, bottom: (90 + 15
                * i) as u32 } == spec_row_rect(i as int));
            assert(scene_rows(old(rt).frame(), i + 1) =~= scene_rows(old(rt).frame(), i as int)
                .push(
                DrawCmd::Text { rect: clip_rect(spec_row_rect(i as int), old(rt).frame()) },
            ));
            assert(rt.cmds() =~= old(rt).cmds() + scene_head(w, h, old(rt).frame(), indicator)
                + scene_rows(old(rt).frame(), i + 1));
        }
        i = i + 1;
    }
}

/// The counts after one owner lets go of one reference to `id`.
pub open spec fn dec_at(counts: Seq<u64>, id: int) -> Seq<u64> {
    counts.update(id, (counts[id] - 1) as u64)
}

/// The counts after the three resource objects are released.
pub open spec fn resources_release_counts(counts: Seq<u64>, rs: Resources) -> Seq<u64> {
    dec_at(dec_at(dec_at(counts, rs.fg_id() as int), rs.bg_id() as int), rs.text_format_id() as int)
}

/// The counts after the whole tree is released in reverse dependency
/// order: the target's root reference and handle, the visual's content
/// reference and handle, the surface's handle, and the device's handle.
pub open spec fn stuff_release_counts(counts: Seq<u64>, st: Stuff) -> Seq<u64> {
    dec_at(
        dec_at(
            dec_at(
                dec_at(
                    dec_at(dec_at(counts, st.visual.id() as int), st.target.id() as int),
                    st.surface.id() as int,
                ),
                st.visual.id() as int,
            ),
            st.surface.id() as int,
        ),
        st.dcomp_device.id() as int,
    )
}

/// The counts after a window's teardown: the tree, then the resources,
/// each released if it existed.
pub open spec fn teardown_counts(
    counts: Seq<u64>,
    stuff: Option<Stuff>,
    rs: Option<Resources>,
) -> Seq<u64> {
    let c1 = match stuff {
        Some(st) => stuff_release_counts(counts, st),
        None => counts,
    };
    match rs {
        Some(r) => resources_release_counts(c1, r),
        None => c1,
    }
}

/// True when `id` is one of the composition tree's four object ids.
pub open spec fn id_in_stuff(st: Stuff, id: usize) -> bool {
    id == st.dcomp_device.id() || id == st.surface.id() || id == st.visual.id() || id
        == st.target.id()
}

/// True when `id` is one of the three resource object ids.
pub open spec fn id_in_resources(rs: Resources, id: usize) -> bool {
    id == rs.fg_id() || id == rs.bg_id() || id == rs.text_format_id()
}

/// The drawing resources of the scene: two solid-colour brushes and a text
/// format, each a reference-counted foreign object.
#[derive(Debug)]
pub struct Resources {
    fg: ComPtr,
    bg: ComPtr,
    text_format: ComPtr,
}

impl Resources {
    pub closed spec fn fg_id(self) -> usize {
        self.fg.target()
    }

    pub closed spec fn bg_id(self) -> usize {
        self.bg.target()
    }

    pub closed spec fn text_format_id(self) -> usize {
        self.text_format.target()
    }

    /// The three handles are non-empty.
    pub closed spec fn handles_sound(self) -> bool {
        &&& self.fg.opt_id() is Some
        &&& self.bg.opt_id() is Some
        &&& self.text_format.opt_id() is Some
    }

    /// Three distinct live objects.
    pub open spec fn wf_in(self, t: ObjectTable) -> bool {
        &&& self.handles_sound()
        &&& t.is_live(self.fg_id())
        &&& t.is_live(self.bg_id())
        &&& t.is_live(self.text_format_id())
        &&& self.fg_id() != self.bg_id()
        &&& self.fg_id() != self.text_format_id()
        &&& self.bg_id() != self.text_format_id()
    }

    /// Releases the three resource objects.
    pub fn release(self, table: &mut ObjectTable)
        requires
            old(table).wf(),
            self.wf_in(*old(table)),
        ensures
            final(table).wf(),
            final(table).counts() == resources_release_counts(old(table).counts(), self),
    {
        self.fg.release(table);
        self.bg.release(table);
        self.text_format.release(table);
    }
}

/// Creates the scene's brushes and text format. A failed resource
/// creation aborts the process before the library is reached, so success
/// is a precondition here.
pub fn create_resources(
    table: &mut ObjectTable,
    hr_fg: i32,
    hr_bg: i32,
    hr_text_format: i32,
) -> (r: Resources)
    requires
        old(table).wf(),
        old(table).has_room(3),
        succeeded(hr_fg),
        succeeded(hr_bg),
        succeeded(hr_text_format),
    ensures
        final(table).wf(),
        final(table).counts() == old(table).counts().push(1u64).push(1u64).push(1u64),
        r.wf_in(*final(table)),
        r.fg_id() == old(table).counts().len(),
        r.bg_id() == old(table).counts().len() + 1,
        r.text_format_id() == old(table).counts().len() + 2,
{
    let fg = ComPtr::wrap_existing(table);
    let bg = ComPtr::wrap_existing(table);
    let text_format = ComPtr::wrap_existing(table);
    Resources { fg, bg, text_format }
}

/// Everything handed to the window at creation time: the compositing
/// device and the composition tree bound to the window.
#[derive(Debug)]
pub struct Stuff {
    pub dcomp_device: DCompositionDevice,
    pub surface: DCompositionVirtualSurface,
    pub visual: DCompositionVisual,
    pub target: DCompositionTarget,
}

impl Stuff {
    /// The wired composition tree: four distinct live objects, the surface
    /// attached as the visual's content, the visual set as the target's
    /// root, the surface Idle, and the two attachments each holding their
    /// own counted reference (so the visual's and surface's counts are at
    /// least two).
    pub open spec fn wf_in(self, t: ObjectTable) -> bool {
        &&& self.dcomp_device.alive_in(t)
        &&& self.surface.wf()
        &&& t.is_live(self.surface.id())
        &&& self.visual.wf_in(t)
        &&& self.target.wf_in(t)
        &&& self.surface.state() == SurfaceState::Idle
        &&& self.visual.content_target() == Some(self.surface.id())
        &&& self.target.root_target() == Some(self.visual.id())
        &&& t.counts()[self.visual.id() as int] >= 2
        &&& t.counts()[self.surface.id() as int] >= 2
        &&& self.dcomp_device.id() != self.surface.id()
        &&& self.dcomp_device.id() != self.visual.id()
        &&& self.dcomp_device.id() != self.target.id()
        &&& self.surface.id() != self.visual.id()
        &&& self.surface.id() != self.target.id()
        &&& self.visual.id() != self.target.id()
    }

    /// Releases the whole tree in reverse dependency order: the target and
    /// its root reference, the visual and its content reference, the
    /// surface, and last the device.
    pub fn release(self, table: &mut ObjectTable)
        requires
            old(table).wf(),
            self.wf_in(*old(table)),
        ensures
            final(table).wf(),
            final(table).counts() == stuff_release_counts(old(table).counts(), self),
    {
        self.target.release(table);
        self.visual.release(table);
        self.surface.release(table);
        self.dcomp_device.release(table);
    }
}

/// The scripted foreign answers for one construction of the device graph
/// and composition tree.
#[derive(Clone, Copy, Debug, PartialEq, Eq, Structural)]
pub struct CreationScript {
    pub chain: ChainScript,
    pub hr_target: i32,
    pub hr_visual: i32,
    pub hr_surface: i32,
    pub hr_set_content: i32,
    pub hr_set_root: i32,
}

/// The first failing status of the whole construction, in order, if any.
pub open spec fn creation_first_failure(s: CreationScript) -> Option<i32> {
    if chain_first_failure(s.chain) is Some {
        chain_first_failure(s.chain)
    } else if !succeeded(s.hr_target) {
        Some(s.hr_target)
    } else if !succeeded(s.hr_visual) {
        Some(s.hr_visual)
    } else if !succeeded(s.hr_surface) {
        Some(s.hr_surface)
    } else if !succeeded(s.hr_set_content) {
        Some(s.hr_set_content)
    } else if !succeeded(s.hr_set_root) {
        Some(s.hr_set_root)
    } else {
        None
    }
}

/// The table counts after one run of the construction: an entry per object
/// a step created, zeroed again when a later failure unwound everything.
pub open spec fn creation_counts(counts: Seq<u64>, s: CreationScript) -> Seq<u64> {
    if chain_first_failure(s.chain) is Some {
        chain_counts(counts, s.chain)
    } else if !succeeded(s.hr_target) {
        counts.push(0u64).push(0u64).push(0u64)
    } else if !succeeded(s.hr_visual) {
        counts.push(0u64).push(0u64).push(0u64).push(0u64)
    } else if !succeeded(s.hr_surface) {
        counts.push(0u64).push(0u64).push(0u64).push(0u64).push(0u64)
    } else if !succeeded(s.hr_set_content) || !succeeded(s.hr_set_root) {
        counts.push(0u64).push(0u64).push(0u64).push(0u64).push(0u64).push(0u64)
    } else {
        counts.push(0u64).push(0u64).push(1u64).push(1u64).push(2u64).push(2u64)
    }
}

/// Builds the device graph and the composition tree for one window: the
/// strict device chain, then the target bound to the window, a visual, a
/// virtual surface of the given size, the surface attached as the visual's
/// content, and the visual set as the target's root. Any failure releases
/// everything already created and propagates the original status unchanged
/// inside [`Error::Hr`]; the chain's intermediate devices are released once
/// the tree stands.
pub fn create_main(table: &mut ObjectTable, s: CreationScript, hwnd: u64, width: u32, height: u32)
    -> (r: Result<Stuff, Error>)
    requires
        old(table).wf(),
        old(table).has_room(6),
        width >= 1,
        height >= 1,
    ensures
        final(table).wf(),
        final(table).counts() == creation_counts(old(table).counts(), s),
        (r is Ok) <==> (creation_first_failure(s) is None),
        creation_first_failure(s) is Some ==> r == Err::<Stuff, Error>(
            Error::Hr(creation_first_failure(s)->Some_0),
        ),
        r is Ok ==> {
            &&& (r->Ok_0).wf_in(*final(table))
            &&& (r->Ok_0).surface.width() == width
            &&& (r->Ok_0).surface.height() == height
            &&& (r->Ok_0).surface.content() == Seq::<DrawCmd>::empty()
            &&& (r->Ok_0).visual.pending_pos() == (0i32, 0i32)
            &&& (r->Ok_0).visual.visible_pos() == (0i32, 0i32)
            &&& (r->Ok_0).target.hwnd() == hwnd
            &&& (r->Ok_0).dcomp_device.id() == old(table).counts().len() + 2
            &&& (r->Ok_0).target.id() == old(table).counts().len() + 3
            &&& (r->Ok_0).visual.id() == old(table).counts().len() + 4
            &&& (r->Ok_0).surface.id() == old(table).counts().len() + 5
        },
{
    let (d3d11, d2d1, dcomp_device) = match create_device_chain(table, s.chain) {
        Ok(t) => t,
        Err(hr) => {
            return Err(Error::Hr(hr));
        },
    };
    let mut target = match dcomp_device.create_target_for_hwnd(table, hwnd, true, s.hr_target) {
        Ok(t) => t,
        Err(hr) => {
            dcomp_device.release(table);
            d2d1.release(table);
            d3d11.release(table);
            proof {
                assert(final(table).counts() =~= creation_counts(old(table).counts(), s));
            }
            return Err(Error::Hr(hr));
        },
    };
    let mut visual = match dcomp_device.create_visual(table, s.hr_visual) {
        Ok(v) => v,
        Err(hr) => {
            target.release(table);
            dcomp_device.release(table);
            d2d1.release(table);
            d3d11.release(table);
            proof {
                assert(final(table).counts() =~= creation_counts(old(table).counts(), s));
            }
            return Err(Error::Hr(hr));
        },
    };
    let surface = match dcomp_device.create_virtual_surface(table, width, height, s.hr_surface) {
        Ok(sf) => sf,
        Err(hr) => {
            visual.release(table);
            target.release(table);
            dcomp_device.release(table);
            d2d1.release(table);
            d3d11.release(table);
            proof {
                assert(final(table).counts() =~= creation_counts(old(table).counts(), s));
            }
            return Err(Error::Hr(hr));
        },
    };
    match visual.set_content(&surface, table, s.hr_set_content) {
        Ok(_) => {},
        Err(hr) => {
            surface.release(table);
            visual.release(table);
            target.release(table);
            dcomp_device.release(table);
            d2d1.release(table);
            d3d11.release(table);
            proof {
                assert(final(table).counts() =~= creation_counts(old(table).counts(), s));
            }
            return Err(Error::Hr(hr));
        },
    }
    match target.set_root(&visual, table, s.hr_set_root) {
        Ok(_) => {},
        Err(hr) => {
            target.release(table);
            visual.release(table);
            surface.release(table);
            dcomp_device.release(table);
            d2d1.release(table);
            d3d11.release(table);
            proof {
                assert(final(table).counts() =~= creation_counts(old(table).counts(), s));
            }
            return Err(Error::Hr(hr));
        },
    }
    d3d11.release(table);
    d2d1.release(table);
    proof {
        assert(final(table).counts() =~= creation_counts(old(table).counts(), s));
    }
    Ok(Stuff { dcomp_device, surface, visual, target })
}

/// The scripted foreign answers for one full draw cycle: the draw session's
/// begin and end, the offset the backing allocation answered, and the
/// resource creations that a first render performs.
#[derive(Clone, Copy, Debug, PartialEq, Eq, Structural)]
pub struct DrawReplies {
    pub hr_begin: i32,
    pub offset_x: u32,
    pub offset_y: u32,
    pub hr_end: i32,
    pub hr_brush_fg: i32,
    pub hr_brush_bg: i32,
    pub hr_text_format: i32,
}

/// The window's state container: the factories, an optional swap-chain
/// render target, the lazily created drawing resources, and the
/// composition objects handed over at window creation. The event-dispatch
/// entry point is the only code path granted mutable access to it, one
/// event at a time.
#[derive(Debug)]
pub struct MainWinState {
    d2d_factory: ComPtr,
    dwrite_factory: ComPtr,
    render_target: Option<RenderTarget>,
    resources: Option<Resources>,
    stuff: Option<Stuff>,
}

impl MainWinState {
    pub closed spec fn d2d_factory_id(self) -> usize {
        self.d2d_factory.target()
    }

    pub closed spec fn dwrite_factory_id(self) -> usize {
        self.dwrite_factory.target()
    }

    pub closed spec fn render_target_spec(self) -> Option<RenderTarget> {
        self.render_target
    }

    pub closed spec fn resources_spec(self) -> Option<Resources> {
        self.resources
    }

    pub closed spec fn stuff_spec(self) -> Option<Stuff> {
        self.stuff
    }

    /// The factories' handles are non-empty.
    pub closed spec fn factories_sound(self) -> bool {
        self.d2d_factory.opt_id() is Some && self.dwrite_factory.opt_id() is Some
    }

    pub open spec fn wf_in(self, t: ObjectTable) -> bool {
        &&& self.factories_sound()
        &&& t.is_live(self.d2d_factory_id())
        &&& t.is_live(self.dwrite_factory_id())
        &&& match self.render_target_spec() {
            Some(rt) => rt.wf() && !rt.is_recording(),
            None => true,
        }
        &&& match self.resources_spec() {
            Some(rs) => rs.wf_in(t),
            None => true,
        }
        &&& match self.stuff_spec() {
            Some(st) => st.wf_in(t),
            None => true,
        }
        &&& match self.stuff_spec() {
            Some(st) => !id_in_stuff(st, self.d2d_factory_id()) && !id_in_stuff(
                st,
                self.dwrite_factory_id(),
            ),
            None => true,
        }
        &&& match self.resources_spec() {
            Some(rs) => !id_in_resources(rs, self.d2d_factory_id()) && !id_in_resources(
                rs,
                self.dwrite_factory_id(),
            ),
            None => true,
        }
        &&& match (self.stuff_spec(), self.resources_spec()) {
            (Some(st), Some(rs)) => {
                &&& !id_in_stuff(st, rs.fg_id())
                &&& !id_in_stuff(st, rs.bg_id())
                &&& !id_in_stuff(st, rs.text_format_id())
            },
            _ => true,
        }
    }

    /// Creates the state container with its two factories; the factory
    /// calls abort the process on failure, so success is a precondition.
    pub fn new(table: &mut ObjectTable, hr_d2d: i32, hr_dwrite: i32) -> (r: MainWinState)
        requires
            old(table).wf(),
            old(table).has_room(2),
            succeeded(hr_d2d),
            succeeded(hr_dwrite),
        ensures
            final(table).wf(),
            final(table).counts() == old(table).counts().push(1u64).push(1u64),
            r.wf_in(*final(table)),
            r.render_target_spec() is None,
            r.resources_spec() is None,
            r.stuff_spec() is None,
    {
        let d2d_factory = create_d2d1_factory(table, hr_d2d);
        let dwrite_factory = create_dwrite_factory(table, hr_dwrite);
        MainWinState {
            d2d_factory,
            dwrite_factory,
            render_target: None,
            resources: None,
            stuff: None,
        }
    }

    /// Hands the composition objects over at window creation time.
    pub fn set(&mut self, stuff: Stuff)
        requires
            old(self).stuff_spec() is None,
        ensures
            final(self).stuff_spec() == Some(stuff),
            final(self).render_target_spec() == old(self).render_target_spec(),
            final(self).resources_spec() == old(self).resources_spec(),
            final(self).d2d_factory_id() == old(self).d2d_factory_id(),
            final(self).dwrite_factory_id() == old(self).dwrite_factory_id(),
            final(self).factories_sound() == old(self).factories_sound(),
    {
        self.stuff = Some(stuff);
    }

    /// True once the composition objects have been handed over.
    pub fn has_stuff(&self) -> (b: bool)
        ensures
            b == (self.stuff_spec() is Some),
    {
        self.stuff.is_some()
    }

    /// The composition objects, for inspection.
    pub fn stuff_ref(&self) -> (r: &Stuff)
        requires
            self.stuff_spec() is Some,
        ensures
            *r == self.stuff_spec()->Some_0,
    {
        match &self.stuff {
            Some(st) => st,
            None => {
                proof {
                    assert(false);
                }
                self.stuff.as_ref().unwrap()
            },
        }
    }

    /// True while a swap-chain render target exists.
    pub fn has_render_target(&self) -> (b: bool)
        ensures
            b == (self.render_target_spec() is Some),
    {
        self.render_target.is_some()
    }

    /// The swap-chain render target, for inspection.
    pub fn render_target_ref(&self) -> (r: &RenderTarget)
        requires
            self.render_target_spec() is Some,
        ensures
            *r == self.render_target_spec()->Some_0,
    {
        match &self.render_target {
            Some(rt) => rt,
            None => {
                proof {
                    assert(false);
                }
                self.render_target.as_ref().unwrap()
            },
        }
    }

    /// Ensures the drawing resources exist, creating them on first use.
    fn ensure_resources(&mut self, table: &mut ObjectTable, rep: &DrawReplies)
        requires
            old(table).wf(),
            old(self).wf_in(*old(table)),
            old(table).has_room(3),
            old(self).resources_spec() is None ==> succeeded(rep.hr_brush_fg) && succeeded(
                rep.hr_brush_bg,
            ) && succeeded(rep.hr_text_format),
        ensures
            final(table).wf(),
            final(self).wf_in(*final(table)),
            final(self).resources_spec() is Some,
            final(self).stuff_spec() == old(self).stuff_spec(),
            final(self).render_target_spec() == old(self).render_target_spec(),
            final(table).counts() == if old(self).resources_spec() is None {
                old(table).counts().push(1u64).push(1u64).push(1u64)
            } else {
                old(table).counts()
            },
            old(self).resources_spec() is Some ==> *final(self) == *old(self),
    {
        if self.resources.is_none() {
            let rs = create_resources(table, rep.hr_brush_fg, rep.hr_brush_bg, rep.hr_text_format);
            self.resources = Some(rs);
        }
    }

    /// One full draw cycle on the composition surface: begin a session over
    /// the whole surface, draw the scene at logical size `(width, height)`,
    /// and end the session, committing the picture into the backing store.
    /// Draw failures are recoverable: a failed begin leaves the surface Idle
    /// with its picture, a failed end keeps the previous picture, and either
    /// status is reported to the caller rather than swallowed, so the caller
    /// can re-render on the next frame.
    pub fn render_dcomp(&mut self, table: &mut ObjectTable, width: u32, height: u32,
        rep: &DrawReplies) -> (r: Result<(), i32>)
        requires
            old(table).wf(),
            old(self).wf_in(*old(table)),
            old(self).stuff_spec() is Some,
            old(table).has_room(3),
            old(self).resources_spec() is None ==> succeeded(rep.hr_brush_fg) && succeeded(
                rep.hr_brush_bg,
            ) && succeeded(rep.hr_text_format),
            rep.offset_x + old(self).stuff_spec()->Some_0.surface.width() <= u32::MAX,
            rep.offset_y + old(self).stuff_spec()->Some_0.surface.height() <= u32::MAX,
        ensures
            final(table).wf(),
            final(self).wf_in(*final(table)),
            final(self).stuff_spec() is Some,
            final(self).resources_spec() is Some,
            final(self).render_target_spec() == old(self).render_target_spec(),
            ({
                let s0 = old(self).stuff_spec()->Some_0.surface;
                let s1 = final(self).stuff_spec()->Some_0.surface;
                &&& s1.same_store(s0)
                &&& s1.state() == SurfaceState::Idle
                &&& s1.content() == (if succeeded(rep.hr_begin) && succeeded(rep.hr_end) {
                    scene_cmds(
                        width,
                        height,
                        Frame {
                            off_x: rep.offset_x,
                            off_y: rep.offset_y,
                            width: s0.width(),
                            height: s0.height(),
                        },
                        true,
                    )
                } else {
                    s0.content()
                })
            }),
            final(self).stuff_spec()->Some_0.visual == old(self).stuff_spec()->Some_0.visual,
            final(self).stuff_spec()->Some_0.target == old(self).stuff_spec()->Some_0.target,
            final(self).stuff_spec()->Some_0.dcomp_device == old(
                self,
            ).stuff_spec()->Some_0.dcomp_device,
            final(table).counts() == if old(self).resources_spec() is None {
                old(table).counts().push(1u64).push(1u64).push(1u64)
            } else {
                old(table).counts()
            },
            succeeded(rep.hr_begin) && succeeded(rep.hr_end) ==> r == Ok::<(), i32>(()),
            !succeeded(rep.hr_begin) ==> r == Err::<(), i32>(rep.hr_begin),
            succeeded(rep.hr_begin) && !succeeded(rep.hr_end) ==> r == Err::<(), i32>(rep.hr_end),
    {
        self.ensure_resources(table, rep);
        let mut stuff = self.stuff.take().unwrap();
        let mut rt = match stuff.surface.begin_draw(None, rep.offset_x, rep.offset_y, rep.hr_begin)
        {
            Ok(rt) => rt,
            Err(hr) => {
                self.stuff = Some(stuff);
                return Err(hr);
            },
        };
        draw_scene(&mut rt, width, height, true);
        let r = stuff.surface.end_draw(rt, rep.hr_end);
        self.stuff = Some(stuff);
        r
    }

    /// One draw cycle on the swap-chain render target. A failure of the
    /// batch's end invalidates the render target, so the next frame
    /// rebuilds it from scratch.
    pub fn render(&mut self, table: &mut ObjectTable, indicator: bool, rep: &DrawReplies)
        requires
            old(table).wf(),
            old(self).wf_in(*old(table)),
            old(self).render_target_spec() is Some,
            old(table).has_room(3),
            old(self).resources_spec() is None ==> succeeded(rep.hr_brush_fg) && succeeded(
                rep.hr_brush_bg,
            ) && succeeded(rep.hr_text_format),
        ensures
            final(table).wf(),
            final(self).wf_in(*final(table)),
            final(self).stuff_spec() == old(self).stuff_spec(),
            final(self).resources_spec() is Some,
            succeeded(rep.hr_end) ==> ({
                let rt0 = old(self).render_target_spec()->Some_0;
                let rt1 = final(self).render_target_spec()->Some_0;
                &&& final(self).render_target_spec() is Some
                &&& rt1.same_session(rt0)
                &&& !rt1.is_recording()
                &&& rt1.cmds() == scene_cmds(
                    rt0.frame().width,
                    rt0.frame().height,
                    rt0.frame(),
                    indicator,
                )
            }),
            !succeeded(rep.hr_end) ==> final(self).render_target_spec() is None,
            final(table).counts() == if old(self).resources_spec() is None {
                old(table).counts().push(1u64).push(1u64).push(1u64)
            } else {
                old(table).counts()
            },
    {
        self.ensure_resources(table, rep);
        let mut rt = self.render_target.take().unwrap();
        rt.begin_draw();
        let size = rt.get_size();
        draw_scene(&mut rt, size.0, size.1, indicator);
        match rt.end_draw(rep.hr_end) {
            Ok(_) => {
                self.render_target = Some(rt);
            },
            Err(_) => {},
        }
    }

    /// Rebuilds the swap-chain render target after its backing changed: on
    /// success a fresh, empty target over the new backing; if the backing
    /// could not be obtained nothing changes; if the target could not be
    /// created over it, the target is left absent until the next attempt.
    pub fn rebuild_render_target(&mut self, width: u32, height: u32, hr_buffer: i32,
        hr_create: i32)
        requires
            old(self).stuff_spec() is Some,
            width >= 1,
            height >= 1,
        ensures
            final(self).stuff_spec() == old(self).stuff_spec(),
            final(self).resources_spec() == old(self).resources_spec(),
            final(self).d2d_factory_id() == old(self).d2d_factory_id(),
            final(self).dwrite_factory_id() == old(self).dwrite_factory_id(),
            final(self).factories_sound() == old(self).factories_sound(),
            succeeded(hr_buffer) && succeeded(hr_create) ==> ({
                let rt = final(self).render_target_spec()->Some_0;
                &&& final(self).render_target_spec() is Some
                &&& rt.wf()
                &&& !rt.is_recording()
                &&& rt.cmds() == Seq::<DrawCmd>::empty()
                &&& rt.frame() == (Frame { off_x: 0, off_y: 0, width, height })
            }),
            succeeded(hr_buffer) && !succeeded(hr_create) ==> final(self).render_target_spec()
                is None,
            !succeeded(hr_buffer) ==> final(self).render_target_spec() == old(
                self,
            ).render_target_spec(),
    {
        if !succeeded(hr_buffer) {
            return ;
        }
        if succeeded(hr_create) {
            let frame = Frame { off_x: 0, off_y: 0, width, height };
            self.render_target = Some(RenderTarget::fresh_target(frame));
        } else {
            self.render_target = None;
        }
    }
}

/// One window notification, with its payload and with the status codes the
/// foreign calls made while handling it will answer.
#[derive(Clone, Copy, Debug, PartialEq, Eq, Structural)]
pub enum Event {
    /// The window exists: build the device graph and the composition tree.
    Created { hwnd: u64, width: u32, height: u32, script: CreationScript },
    /// A pre-resize notification carrying the window's proposed outer
    /// dimensions and the queried chrome padding.
    PreResize {
        outer_w: u32,
        outer_h: u32,
        pad_w: u32,
        pad_h: u32,
        hr_resize: i32,
        draw: DrawReplies,
        hr_commit: i32,
    },
    /// The pointer moved to the given client coordinates.
    PointerMove { x: u16, y: u16, hr_commit: i32 },
    /// The window is going away: release everything, in reverse dependency
    /// order.
    Destroyed,
}

/// The surface width the resize protocol leaves behind: the client width
/// when the resize succeeded, the previous width otherwise.
pub open spec fn resized_width(s: DCompositionVirtualSurface, cw: u32, hr_resize: i32) -> u32 {
    if succeeded(hr_resize) {
        cw
    } else {
        s.width()
    }
}

pub open spec fn resized_height(s: DCompositionVirtualSurface, ch: u32, hr_resize: i32) -> u32 {
    if succeeded(hr_resize) {
        ch
    } else {
        s.height()
    }
}

/// What a window's state must look like for an event to be deliverable to
/// it: the construction needs an empty slot and room in the world; the two
/// protocols need the composition objects; and a first render's resource
/// creations, fatal to startup when they fail, must be about to succeed.
/// The draw session's own statuses are unconstrained: draw failures are
/// recoverable.
pub open spec fn event_allowed(st: MainWinState, t: ObjectTable, e: Event) -> bool {
    match e {
        Event::Created { hwnd, width, height, script } => {
            &&& st.stuff_spec() is None
            &&& width >= 1
            &&& height >= 1
            &&& t.has_room(6)
        },
        Event::PreResize { outer_w, outer_h, pad_w, pad_h, hr_resize, draw, hr_commit } => {
            let cw = spec_client_dim(outer_w, pad_w);
            let ch = spec_client_dim(outer_h, pad_h);
            &&& st.stuff_spec() is Some
            &&& t.has_room(3)
            &&& (st.resources_spec() is None ==> succeeded(draw.hr_brush_fg) && succeeded(
                draw.hr_brush_bg,
            ) && succeeded(draw.hr_text_format))
            &&& (cw > 0 && ch > 0 ==> {
                let nw = resized_width(st.stuff_spec()->Some_0.surface, cw, hr_resize);
                let nh = resized_height(st.stuff_spec()->Some_0.surface, ch, hr_resize);
                &&& draw.offset_x + nw <= u32::MAX
                &&& draw.offset_y + nh <= u32::MAX
            })
        },
        Event::PointerMove { x, y, hr_commit } => st.stuff_spec() is Some,
        Event::Destroyed => true,
    }
}

/// How one event evolves a window's handler state and the object table,
/// and what the handler answers. This is the whole behavioural contract of
/// [`MainWin::window_proc`], factored out so that the event dispatcher can
/// promise the same evolution for the handler it delivers the event to.
pub open spec fn window_proc_rel(
    w0: MainWin,
    w1: MainWin,
    t0: ObjectTable,
    t1: ObjectTable,
    event: Event,
    r: Option<Result<i64, Error>>,
) -> bool {
    match event {
        Event::Created { hwnd, width, height, script } => {
            &&& t1.counts() == creation_counts(t0.counts(), script)
            &&& (creation_first_failure(script) is None ==> {
                let st = w1.stuff_spec()->Some_0;
                &&& r == Some(Ok::<i64, Error>(0))
                &&& w1.stuff_spec() is Some
                &&& st.surface.width() == width
                &&& st.surface.height() == height
                &&& st.surface.content() == Seq::<DrawCmd>::empty()
                &&& st.target.hwnd() == hwnd
            })
            &&& (creation_first_failure(script) is Some ==> {
                &&& r == Some(
                    Err::<i64, Error>(Error::Hr(creation_first_failure(script)->Some_0)),
                )
                &&& w1.stuff_spec() is None
            })
        },
        Event::PreResize { outer_w, outer_h, pad_w, pad_h, hr_resize, draw, hr_commit } => {
            let cw = spec_client_dim(outer_w, pad_w);
            let ch = spec_client_dim(outer_h, pad_h);
            let s0 = w0.stuff_spec()->Some_0.surface;
            let v0 = w0.stuff_spec()->Some_0.visual;
            let nw = resized_width(s0, cw, hr_resize);
            let nh = resized_height(s0, ch, hr_resize);
            &&& r == Some(Ok::<i64, Error>(0))
            &&& (cw == 0 || ch == 0 ==> w1 == w0 && t1.counts() == t0.counts())
            &&& (cw > 0 && ch > 0 ==> {
                let s1 = w1.stuff_spec()->Some_0.surface;
                let v1 = w1.stuff_spec()->Some_0.visual;
                &&& w1.stuff_spec() is Some
                &&& s1.width() == nw
                &&& s1.height() == nh
                &&& s1.state() == SurfaceState::Idle
                &&& s1.content() == (if succeeded(draw.hr_begin) && succeeded(draw.hr_end) {
                    scene_cmds(
                        nw,
                        nh,
                        Frame { off_x: draw.offset_x, off_y: draw.offset_y, width: nw, height: nh },
                        true,
                    )
                } else if succeeded(hr_resize) {
                    Seq::<DrawCmd>::empty()
                } else {
                    s0.content()
                })
                &&& v1.pending_pos() == v0.pending_pos()
                &&& (succeeded(hr_commit) ==> v1.visible_pos() == v0.pending_pos())
                &&& (!succeeded(hr_commit) ==> v1.visible_pos() == v0.visible_pos())
            })
        },
        Event::PointerMove { x, y, hr_commit } => {
            let v0 = w0.stuff_spec()->Some_0.visual;
            let v1 = w1.stuff_spec()->Some_0.visual;
            &&& r == Some(Ok::<i64, Error>(0))
            &&& w1.stuff_spec() is Some
            &&& w1.stuff_spec()->Some_0.surface == w0.stuff_spec()->Some_0.surface
            &&& v1.pending_pos() == (x as i32, y as i32)
            &&& (succeeded(hr_commit) ==> v1.visible_pos() == (x as i32, y as i32))
            &&& (!succeeded(hr_commit) ==> v1.visible_pos() == v0.visible_pos())
            &&& t1.counts() == t0.counts()
        },
        Event::Destroyed => {
            &&& r is None
            &&& w1.stuff_spec() is None
            &&& w1.resources_spec() is None
            &&& w1.render_target_spec() is None
            &&& t1.counts() == teardown_counts(t0.counts(), w0.stuff_spec(), w0.resources_spec())
        },
    }
}

/// The per-window handler: the state container behind one window, touched
/// only by the event-dispatch entry point, one notification at a time.
#[derive(Debug)]
pub struct MainWin {
    state: MainWinState,
}

impl MainWin {
    pub closed spec fn state_spec(self) -> MainWinState {
        self.state
    }

    pub open spec fn stuff_spec(self) -> Option<Stuff> {
        self.state_spec().stuff_spec()
    }

    pub open spec fn resources_spec(self) -> Option<Resources> {
        self.state_spec().resources_spec()
    }

    pub open spec fn render_target_spec(self) -> Option<RenderTarget> {
        self.state_spec().render_target_spec()
    }

    pub open spec fn wf_in(self, t: ObjectTable) -> bool {
        self.state_spec().wf_in(t)
    }

    pub fn new(state: MainWinState) -> (w: MainWin)
        ensures
            w.state_spec() == state,
    {
        MainWin { state }
    }

    /// Hands the composition objects over at window creation time.
    pub fn set(&mut self, stuff: Stuff)
        requires
            old(self).stuff_spec() is None,
        ensures
            final(self).stuff_spec() == Some(stuff),
            final(self).resources_spec() == old(self).resources_spec(),
            final(self).render_target_spec() == old(self).render_target_spec(),
    {
        self.state.set(stuff);
    }

    /// The window's state container, for inspection.
    pub fn state_ref(&self) -> (r: &MainWinState)
        ensures
            *r == self.state_spec(),
    {
        &self.state
    }

    /// The single event entry point: invoked once per window notification,
    /// on the owning thread; `None` means the event is left to the window
    /// system's default handling.
    ///
    /// Window-created builds the device graph and composition tree, and a
    /// creation failure is fatal: the typed error goes back to the caller.
    /// Pre-resize runs the whole resize protocol in this one invocation:
    /// client size from outer size minus queried padding, resize while
    /// Idle, full re-render at the new size, commit. Pointer-move updates
    /// the visual's offset and commits. Window-destroyed releases all
    /// handles, visuals and surfaces before devices.
    pub fn window_proc(&mut self, table: &mut ObjectTable, event: Event) -> (r: Option<
        Result<i64, Error>,
    >)
        requires
            old(table).wf(),
            old(self).wf_in(*old(table)),
            event_allowed(old(self).state_spec(), *old(table), event),
        ensures
            final(table).wf(),
            final(self).wf_in(*final(table)),
            window_proc_rel(*old(self), *final(self), *old(table), *final(table), event, r),
    {
        match event {
            Event::Created { hwnd, width, height, script } => {
                match create_main(table, script, hwnd, width, height) {
                    Ok(stuff) => {
                        self.state.set(stuff);
                        Some(Ok(0))
                    },
                    Err(e) => Some(Err(e)),
                }
            },
            Event::PreResize { outer_w, outer_h, pad_w, pad_h, hr_resize, draw, hr_commit } => {
                let dims = client_dims(outer_w, outer_h, pad_w, pad_h);
                if dims.0 == 0 || dims.1 == 0 {
                    return Some(Ok(0));
                }
                let mut stuff = self.state.stuff.take().unwrap();
                match stuff.surface.resize(dims.0, dims.1, hr_resize) {
                    Ok(_) => {},
                    Err(_) => {},
                }
                let size = stuff.surface.size();
                self.state.stuff = Some(stuff);
                match self.state.render_dcomp(table, size.0, size.1, &draw) {
                    Ok(_) => {},
                    Err(_) => {},
                }
                let mut stuff = self.state.stuff.take().unwrap();
                match stuff.dcomp_device.commit(&mut stuff.visual, hr_commit) {
                    Ok(_) => {},
                    Err(_) => {},
                }
                self.state.stuff = Some(stuff);
                Some(Ok(0))
            },
            Event::PointerMove { x, y, hr_commit } => {
                let mut stuff = self.state.stuff.take().unwrap();
                stuff.visual.set_pos(x as i32, y as i32);
                match stuff.dcomp_device.commit(&mut stuff.visual, hr_commit) {
                    Ok(_) => {},
                    Err(_) => {},
                }
                self.state.stuff = Some(stuff);
                Some(Ok(0))
            },
            Event::Destroyed => {
                match self.state.stuff.take() {
                    Some(st) => st.release(table),
                    None => {},
                }
                match self.state.resources.take() {
                    Some(rs) => rs.release(table),
                    None => {},
                }
                self.state.render_target = None;
                None
            },
        }
    }
}

} // verus!
