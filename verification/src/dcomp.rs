//! The compositor object model: the device-creation dependency chain, the
//! composition tree (target, visual, virtual surface), the draw-session
//! state machine and the commit discipline.
//!
//! Every foreign call is represented by the status code the foreign side
//! answered, handed in by the caller; object lifetimes go through the
//! [`ObjectTable`] so that reference-count ownership is checked throughout.

use vstd::prelude::*;
use crate::comptr::{ComPtr, ObjectTable};
use crate::draw::{DrawCmd, Frame, Rect, RenderTarget};
use crate::util::succeeded;

verus! {

/// Wraps a foreign factory answer: on success the freshly created object is
/// adopted (its single reference taken over), on failure the status code is
/// passed through unchanged.
pub fn wrap(table: &mut ObjectTable, hr: i32) -> (r: Result<ComPtr, i32>)
    requires
        old(table).wf(),
        old(table).has_room(1),
    ensures
        final(table).wf(),
        succeeded(hr) ==> {
            &&& r is Ok
            &&& (r->Ok_0).points_to(old(table).counts().len() as usize)
            &&& final(table).counts() == old(table).counts().push(1u64)
        },
        !succeeded(hr) ==> r == Err::<ComPtr, i32>(hr) && final(table).counts() == old(
            table,
        ).counts(),
{
    if succeeded(hr) {
        Ok(ComPtr::wrap_existing(table))
    } else {
        Err(hr)
    }
}

/// Turns a foreign status code into a unit result.
pub fn unit_err(hr: i32) -> (r: Result<(), i32>)
    ensures
        succeeded(hr) ==> r == Ok::<(), i32>(()),
        !succeeded(hr) ==> r == Err::<(), i32>(hr),
{
    if succeeded(hr) {
        Ok(())
    } else {
        Err(hr)
    }
}

/// The counts after attaching a shared reference to `new_id` and letting go
/// of the reference previously held on `prev` (if any): the new attachment
/// is incremented first, then the old one released — replacing never
/// destroys an object that another owner still retains.
pub open spec fn attach_counts(counts: Seq<u64>, new_id: int, prev: Option<usize>) -> Seq<u64> {
    let c1 = counts.update(new_id, (counts[new_id] + 1) as u64);
    match prev {
        Some(o) => c1.update(o as int, (c1[o as int] - 1) as u64),
        None => c1,
    }
}

/// Stage 1 of the device graph: the hardware drawing device, requested with
/// hardware acceleration and alpha-blend capability.
#[derive(Debug)]
pub struct D3D11Device {
    handle: ComPtr,
}

/// Stage 2 of the device graph: the 2D drawing device, built on stage 1.
#[derive(Debug)]
pub struct D2D1Device {
    handle: ComPtr,
}

/// Stage 3 of the device graph: the compositing device, built on stage 2.
#[derive(Debug)]
pub struct DCompositionDevice {
    handle: ComPtr,
}

/// Binds the compositing device's visual output to one window; holds at
/// most one root visual.
#[derive(Debug)]
pub struct DCompositionTarget {
    handle: ComPtr,
    hwnd: u64,
    topmost: bool,
    root: Option<ComPtr>,
}

/// A node of the retained composition tree: at most one content object, and
/// a screen-space offset that is mutated independently of drawing. The
/// offset exists twice: the pending value that updates write, and the
/// visible value that only a commit publishes.
#[derive(Debug)]
pub struct DCompositionVisual {
    handle: ComPtr,
    content: Option<ComPtr>,
    pending_x: i32,
    pending_y: i32,
    visible_x: i32,
    visible_y: i32,
}

/// The draw-session state of a virtual surface: drawing is only valid
/// between a begin-draw and its end-draw.
#[derive(Clone, Copy, Debug, PartialEq, Eq, Structural)]
pub enum SurfaceState {
    Idle,
    Drawing,
}

/// A resizable drawable backing store, consumed as a visual's content.
/// Its backing-store picture is modeled at session granularity: the
/// commands of the most recently committed draw session.
#[derive(Debug)]
pub struct DCompositionVirtualSurface {
    handle: ComPtr,
    width: u32,
    height: u32,
    state: SurfaceState,
    content: Vec<DrawCmd>,
}

impl D3D11Device {
    pub closed spec fn id(self) -> usize {
        self.handle.target()
    }

    pub closed spec fn has_object(self) -> bool {
        self.handle.opt_id() is Some
    }

    pub open spec fn alive_in(self, t: ObjectTable) -> bool {
        self.has_object() && t.is_live(self.id())
    }

    /// Creates the hardware device with the fixed capability configuration.
    /// Any failure aborts the chain; there is no retry.
    pub fn new_simple(table: &mut ObjectTable, hr: i32) -> (r: Result<D3D11Device, i32>)
        requires
            old(table).wf(),
            old(table).has_room(1),
        ensures
            final(table).wf(),
            succeeded(hr) ==> {
                &&& r is Ok
                &&& (r->Ok_0).has_object()
                &&& (r->Ok_0).id() == old(table).counts().len()
                &&& final(table).counts() == old(table).counts().push(1u64)
            },
            !succeeded(hr) ==> r == Err::<D3D11Device, i32>(hr) && final(table).counts() == old(
                table,
            ).counts(),
    {
        match wrap(table, hr) {
            Ok(handle) => Ok(D3D11Device { handle }),
            Err(e) => Err(e),
        }
    }

    /// Builds the 2D drawing device on this one. A capability query first
    /// asks whether the hardware device supports the 2D extension; an
    /// unsupported interface fails the stage with the query's own status,
    /// and either failure is passed through unchanged.
    pub fn create_d2d1_device(
        &self,
        table: &mut ObjectTable,
        hr_query: i32,
        hr_create: i32,
    ) -> (r: Result<D2D1Device, i32>)
        requires
            old(table).wf(),
            self.alive_in(*old(table)),
            old(table).can_add_ref(self.id()),
            old(table).has_room(1),
        ensures
            final(table).wf(),
            succeeded(hr_query) && succeeded(hr_create) ==> {
                &&& r is Ok
                &&& (r->Ok_0).has_object()
                &&& (r->Ok_0).id() == old(table).counts().len()
                &&& final(table).counts() == old(table).counts().push(1u64)
            },
            !succeeded(hr_query) ==> r == Err::<D2D1Device, i32>(hr_query) && final(table).counts()
                == old(table).counts(),
            succeeded(hr_query) && !succeeded(hr_create) ==> r == Err::<D2D1Device, i32>(hr_create)
                && final(table).counts() == old(table).counts(),
    {
        let dxgi = match self.handle.query_interface(table, hr_query) {
            Ok(p) => p,
            Err(hr) => {
                return Err(hr);
            },
        };
        let dev = match wrap(table, hr_create) {
            Ok(p) => p,
            Err(hr) => {
                dxgi.release(table);
                proof {
                    assert(final(table).counts() =~= old(table).counts());
                }
                return Err(hr);
            },
        };
        dxgi.release(table);
        proof {
            assert(final(table).counts() =~= old(table).counts().push(1u64));
        }
        Ok(D2D1Device { handle: dev })
    }

    /// Releases the handle's unit of ownership.
    pub fn release(self, table: &mut ObjectTable)
        requires
            old(table).wf(),
            self.alive_in(*old(table)),
        ensures
            final(table).wf(),
            final(table).counts() == old(table).counts().update(
                self.id() as int,
                (old(table).counts()[self.id() as int] - 1) as u64,
            ),
    {
        self.handle.release(table);
    }
}

impl D2D1Device {
    pub closed spec fn id(self) -> usize {
        self.handle.target()
    }

    pub closed spec fn has_object(self) -> bool {
        self.handle.opt_id() is Some
    }

    pub open spec fn alive_in(self, t: ObjectTable) -> bool {
        self.has_object() && t.is_live(self.id())
    }

    /// Wraps this 2D device as the compositor root.
    pub fn create_composition_device(&self, table: &mut ObjectTable, hr: i32) -> (r: Result<
        DCompositionDevice,
        i32,
    >)
        requires
            old(table).wf(),
            self.alive_in(*old(table)),
            old(table).has_room(1),
        ensures
            final(table).wf(),
            succeeded(hr) ==> {
                &&& r is Ok
                &&& (r->Ok_0).has_object()
                &&& (r->Ok_0).id() == old(table).counts().len()
                &&& final(table).counts() == old(table).counts().push(1u64)
            },
            !succeeded(hr) ==> r == Err::<DCompositionDevice, i32>(hr) && final(table).counts()
                == old(table).counts(),
    {
        match wrap(table, hr) {
            Ok(handle) => Ok(DCompositionDevice { handle }),
            Err(e) => Err(e),
        }
    }

    /// Releases the handle's unit of ownership.
    pub fn release(self, table: &mut ObjectTable)
        requires
            old(table).wf(),
            self.alive_in(*old(table)),
        ensures
            final(table).wf(),
            final(table).counts() == old(table).counts().update(
                self.id() as int,
                (old(table).counts()[self.id() as int] - 1) as u64,
            ),
    {
        self.handle.release(table);
    }
}

/// The scripted foreign answers for one run of the device chain.
#[derive(Clone, Copy, Debug, PartialEq, Eq, Structural)]
pub struct ChainScript {
    /// Status of the hardware-device creation (stage 1).
    pub hr_d3d11: i32,
    /// Status of the capability query that stage 2 performs first.
    pub hr_query_dxgi: i32,
    /// Status of the 2D-device creation (stage 2).
    pub hr_d2d1: i32,
    /// Status of the compositing-device creation (stage 3).
    pub hr_dcomp: i32,
}

/// The first failing status of the chain, in stage order, if any.
pub open spec fn chain_first_failure(s: ChainScript) -> Option<i32> {
    if !succeeded(s.hr_d3d11) {
        Some(s.hr_d3d11)
    } else if !succeeded(s.hr_query_dxgi) {
        Some(s.hr_query_dxgi)
    } else if !succeeded(s.hr_d2d1) {
        Some(s.hr_d2d1)
    } else if !succeeded(s.hr_dcomp) {
        Some(s.hr_dcomp)
    } else {
        None
    }
}

/// How many of the three stages the chain attempts: a failing stage
/// short-circuits every stage after it.
pub open spec fn chain_stages_attempted(s: ChainScript) -> int {
    if !succeeded(s.hr_d3d11) {
        1
    } else if !succeeded(s.hr_query_dxgi) || !succeeded(s.hr_d2d1) {
        2
    } else {
        3
    }
}

/// The table counts after one run of the chain: an entry for each object a
/// stage created, zeroed again for the stages unwound on failure.
pub open spec fn chain_counts(counts: Seq<u64>, s: ChainScript) -> Seq<u64> {
    if !succeeded(s.hr_d3d11) {
        counts
    } else if !succeeded(s.hr_query_dxgi) || !succeeded(s.hr_d2d1) {
        counts.push(0u64)
    } else if !succeeded(s.hr_dcomp) {
        counts.push(0u64).push(0u64)
    } else {
        counts.push(1u64).push(1u64).push(1u64)
    }
}

/// Runs the strict, ordered device chain: hardware device, then 2D device,
/// then compositing device. A later stage structurally requires the prior
/// stage's live object; any failure short-circuits the remaining stages,
/// releases what was already created, and propagates the original status
/// unchanged.
pub fn create_device_chain(table: &mut ObjectTable, s: ChainScript) -> (r: Result<
    (D3D11Device, D2D1Device, DCompositionDevice),
    i32,
>)
    requires
        old(table).wf(),
        old(table).has_room(3),
    ensures
        final(table).wf(),
        final(table).counts() == chain_counts(old(table).counts(), s),
        chain_first_failure(s) is None ==> {
            &&& r is Ok
            &&& (r->Ok_0).0.alive_in(*final(table))
            &&& (r->Ok_0).1.alive_in(*final(table))
            &&& (r->Ok_0).2.alive_in(*final(table))
            &&& (r->Ok_0).0.id() == old(table).counts().len()
            &&& (r->Ok_0).1.id() == old(table).counts().len() + 1
            &&& (r->Ok_0).2.id() == old(table).counts().len() + 2
        },
        chain_first_failure(s) is Some ==> r == Err::<(D3D11Device, D2D1Device,
        DCompositionDevice), i32>(chain_first_failure(s)->Some_0),
{
    let d3d11 = match D3D11Device::new_simple(table, s.hr_d3d11) {
        Ok(d) => d,
        Err(hr) => {
            return Err(hr);
        },
    };
    let d2d1 = match d3d11.create_d2d1_device(table, s.hr_query_dxgi, s.hr_d2d1) {
        Ok(d) => d,
        Err(hr) => {
            d3d11.release(table);
            proof {
                assert(final(table).counts() =~= chain_counts(old(table).counts(), s));
            }
            return Err(hr);
        },
    };
    let dcomp = match d2d1.create_composition_device(table, s.hr_dcomp) {
        Ok(d) => d,
        Err(hr) => {
            d2d1.release(table);
            d3d11.release(table);
            proof {
                assert(final(table).counts() =~= chain_counts(old(table).counts(), s));
            }
            return Err(hr);
        },
    };
    Ok((d3d11, d2d1, dcomp))
}

/// When stage 2 fails — its capability query or its creation call — the
/// chain attempts exactly two stages, never the third, and the error it
/// reports is exactly the status stage 2 produced.
pub proof fn lemma_chain_stage_two_failure_skips_stage_three(s: ChainScript)
    requires
        succeeded(s.hr_d3d11),
        !succeeded(s.hr_query_dxgi) || !succeeded(s.hr_d2d1),
    ensures
        chain_stages_attempted(s) == 2,
        chain_first_failure(s) == Some(
            if !succeeded(s.hr_query_dxgi) {
                s.hr_query_dxgi
            } else {
                s.hr_d2d1
            },
        ),
        forall|counts: Seq<u64>| #[trigger] chain_counts(counts, s).len() == counts.len() + 1,
{
}

impl DCompositionDevice {
    pub closed spec fn id(self) -> usize {
        self.handle.target()
    }

    pub closed spec fn has_object(self) -> bool {
        self.handle.opt_id() is Some
    }

    pub open spec fn alive_in(self, t: ObjectTable) -> bool {
        self.has_object() && t.is_live(self.id())
    }

    /// Binds the device's visual output to the given window.
    pub fn create_target_for_hwnd(
        &self,
        table: &mut ObjectTable,
        hwnd: u64,
        topmost: bool,
        hr: i32,
    ) -> (r: Result<DCompositionTarget, i32>)
        requires
            old(table).wf(),
            self.alive_in(*old(table)),
            old(table).has_room(1),
        ensures
            final(table).wf(),
            succeeded(hr) ==> {
                &&& r is Ok
                &&& (r->Ok_0).has_object()
                &&& (r->Ok_0).id() == old(table).counts().len()
                &&& (r->Ok_0).hwnd() == hwnd
                &&& (r->Ok_0).root_target() is None
                &&& (r->Ok_0).wf_in(*final(table))
                &&& final(table).counts() == old(table).counts().push(1u64)
            },
            !succeeded(hr) ==> r == Err::<DCompositionTarget, i32>(hr) && final(table).counts()
                == old(table).counts(),
    {
        match wrap(table, hr) {
            Ok(handle) => Ok(DCompositionTarget { handle, hwnd, topmost, root: None }),
            Err(e) => Err(e),
        }
    }

    /// Creates a fresh visual with no content and a zero offset.
    pub fn create_visual(&self, table: &mut ObjectTable, hr: i32) -> (r: Result<
        DCompositionVisual,
        i32,
    >)
        requires
            old(table).wf(),
            self.alive_in(*old(table)),
            old(table).has_room(1),
        ensures
            final(table).wf(),
            succeeded(hr) ==> {
                &&& r is Ok
                &&& (r->Ok_0).has_object()
                &&& (r->Ok_0).id() == old(table).counts().len()
                &&& (r->Ok_0).content_target() is None
                &&& (r->Ok_0).pending_pos() == (0i32, 0i32)
                &&& (r->Ok_0).visible_pos() == (0i32, 0i32)
                &&& (r->Ok_0).wf_in(*final(table))
                &&& final(table).counts() == old(table).counts().push(1u64)
            },
            !succeeded(hr) ==> r == Err::<DCompositionVisual, i32>(hr) && final(table).counts()
                == old(table).counts(),
    {
        match wrap(table, hr) {
            Ok(handle) => Ok(
                DCompositionVisual {
                    handle,
                    content: None,
                    pending_x: 0,
                    pending_y: 0,
                    visible_x: 0,
                    visible_y: 0,
                },
            ),
            Err(e) => Err(e),
        }
    }

    /// Creates a virtual surface with the given logical dimensions, Idle and
    /// blank.
    pub fn create_virtual_surface(
        &self,
        table: &mut ObjectTable,
        width: u32,
        height: u32,
        hr: i32,
    ) -> (r: Result<DCompositionVirtualSurface, i32>)
        requires
            old(table).wf(),
            self.alive_in(*old(table)),
            old(table).has_room(1),
            width >= 1,
            height >= 1,
        ensures
            final(table).wf(),
            succeeded(hr) ==> {
                &&& r is Ok
                &&& (r->Ok_0).wf()
                &&& (r->Ok_0).id() == old(table).counts().len()
                &&& (r->Ok_0).width() == width
                &&& (r->Ok_0).height() == height
                &&& (r->Ok_0).state() == SurfaceState::Idle
                &&& (r->Ok_0).content() == Seq::<DrawCmd>::empty()
                &&& final(table).is_live((r->Ok_0).id())
                &&& final(table).counts() == old(table).counts().push(1u64)
            },
            !succeeded(hr) ==> r == Err::<DCompositionVirtualSurface, i32>(hr) && final(
                table
            ).counts() == old(table).counts(),
    {
        match wrap(table, hr) {
            Ok(handle) => Ok(
                DCompositionVirtualSurface {
                    handle,
                    width,
                    height,
                    state: SurfaceState::Idle,
                    content: Vec::new(),
                },
            ),
            Err(e) => Err(e),
        }
    }

    /// Publishes pending composition-tree mutations atomically: on success
    /// the visual's visible offset becomes its pending offset; on failure
    /// nothing becomes visible and the status is reported.
    ///
    /// Of the retained tree's mutations, this model gives the
    /// pending-versus-visible split to the visual's offset property, the
    /// one property the protocols mutate between commits; attachment
    /// changes (a visual's content, a target's root) are modeled at the
    /// granularity of their setters.
    pub fn commit(&self, visual: &mut DCompositionVisual, hr: i32) -> (r: Result<(), i32>)
        ensures
            succeeded(hr) ==> r == Ok::<(), i32>(()) && commit_rel(*old(visual), *final(visual)),
            !succeeded(hr) ==> r == Err::<(), i32>(hr) && *final(visual) == *old(visual),
    {
        if succeeded(hr) {
            visual.visible_x = visual.pending_x;
            visual.visible_y = visual.pending_y;
        }
        unit_err(hr)
    }

    /// Releases the handle's unit of ownership.
    pub fn release(self, table: &mut ObjectTable)
        requires
            old(table).wf(),
            self.alive_in(*old(table)),
        ensures
            final(table).wf(),
            final(table).counts() == old(table).counts().update(
                self.id() as int,
                (old(table).counts()[self.id() as int] - 1) as u64,
            ),
    {
        self.handle.release(table);
    }
}

impl DCompositionTarget {
    pub closed spec fn id(self) -> usize {
        self.handle.target()
    }

    pub closed spec fn has_object(self) -> bool {
        self.handle.opt_id() is Some
    }

    pub closed spec fn hwnd(self) -> u64 {
        self.hwnd
    }

    /// The object id of the current root visual, if one is set.
    pub closed spec fn root_target(self) -> Option<usize> {
        match self.root {
            Some(h) => Some(h.target()),
            None => None,
        }
    }

    /// A target is well-formed in a table when its own object and its root
    /// reference (if any) are alive, and it is not its own root.
    pub open spec fn wf_in(self, t: ObjectTable) -> bool {
        &&& self.has_object()
        &&& t.is_live(self.id())
        &&& self.root_handle_sound()
        &&& match self.root_target() {
            Some(o) => t.is_live(o) && o != self.id(),
            None => true,
        }
    }

    /// The root reference, when present, is a non-empty handle.
    pub closed spec fn root_handle_sound(self) -> bool {
        match self.root {
            Some(h) => h.opt_id() is Some,
            None => true,
        }
    }

    /// The window this target is bound to.
    pub fn window_id(&self) -> (r: u64)
        ensures
            r == self.hwnd(),
    {
        self.hwnd
    }

    /// The object id of the current root visual, if one is set.
    pub fn root_id(&self) -> (r: Option<usize>)
        requires
            self.root_handle_sound(),
        ensures
            r == self.root_target(),
    {
        match &self.root {
            Some(h) => Some(h.ptr()),
            None => None,
        }
    }

    /// Sets the root visual. Setting a new root replaces, but does not
    /// destroy, the old one: the target lets go of its reference, and the
    /// old visual stays alive only if another owner retains it.
    pub fn set_root(
        &mut self,
        visual: &DCompositionVisual,
        table: &mut ObjectTable,
        hr: i32,
    ) -> (r: Result<(), i32>)
        requires
            old(table).wf(),
            old(self).wf_in(*old(table)),
            visual.has_object(),
            old(table).can_add_ref(visual.id()),
            visual.id() != old(self).id(),
        ensures
            final(table).wf(),
            final(self).wf_in(*final(table)),
            final(self).id() == old(self).id(),
            final(self).hwnd() == old(self).hwnd(),
            succeeded(hr) ==> {
                &&& r == Ok::<(), i32>(())
                &&& final(self).root_target() == Some(visual.id())
                &&& final(table).counts() == attach_counts(
                    old(table).counts(),
                    visual.id() as int,
                    old(self).root_target(),
                )
            },
            !succeeded(hr) ==> {
                &&& r == Err::<(), i32>(hr)
                &&& *final(self) == *old(self)
                &&& final(table).counts() == old(table).counts()
            },
    {
        if succeeded(hr) {
            let shared = visual.handle.share(table);
            let prev = self.root.take();
            self.root = Some(shared);
            match prev {
                Some(h) => h.release(table),
                None => {},
            }
            Ok(())
        } else {
            Err(hr)
        }
    }

    /// Releases the root reference (if any) and the target's own handle.
    pub fn release(self, table: &mut ObjectTable)
        requires
            old(table).wf(),
            self.wf_in(*old(table)),
        ensures
            final(table).wf(),
            final(table).counts() == detach_counts(
                old(table).counts(),
                self.id() as int,
                self.root_target(),
            ),
    {
        match self.root {
            Some(h) => h.release(table),
            None => {},
        }
        self.handle.release(table);
    }
}

/// The counts after an owner lets go of its own object `id` and of the
/// reference it held on `held` (if any).
pub open spec fn detach_counts(counts: Seq<u64>, id: int, held: Option<usize>) -> Seq<u64> {
    let c1 = match held {
        Some(o) => counts.update(o as int, (counts[o as int] - 1) as u64),
        None => counts,
    };
    c1.update(id, (c1[id] - 1) as u64)
}

/// What a pending-offset update leaves unchanged, and what it writes: only
/// the pending offset moves; nothing becomes visible.
pub open spec fn set_pos_rel(a: DCompositionVisual, b: DCompositionVisual, x: i32, y: i32) -> bool {
    &&& b.pending_pos() == (x, y)
    &&& b.visible_pos() == a.visible_pos()
    &&& b.same_links(a)
}

/// What a successful commit does to a visual: the pending offset is
/// published, and nothing else moves.
pub open spec fn commit_rel(a: DCompositionVisual, b: DCompositionVisual) -> bool {
    &&& b.visible_pos() == a.pending_pos()
    &&& b.pending_pos() == a.pending_pos()
    &&& b.same_links(a)
}

impl DCompositionVisual {
    pub closed spec fn id(self) -> usize {
        self.handle.target()
    }

    pub closed spec fn has_object(self) -> bool {
        self.handle.opt_id() is Some
    }

    /// The object id of the current content attachment, if any.
    pub closed spec fn content_target(self) -> Option<usize> {
        match self.content {
            Some(h) => Some(h.target()),
            None => None,
        }
    }

    /// The offset that updates write; published only by a commit.
    pub closed spec fn pending_pos(self) -> (i32, i32) {
        (self.pending_x, self.pending_y)
    }

    /// The offset the composed output currently shows.
    pub closed spec fn visible_pos(self) -> (i32, i32) {
        (self.visible_x, self.visible_y)
    }

    /// Identity and attachment are untouched.
    pub open spec fn same_links(self, other: DCompositionVisual) -> bool {
        &&& self.id() == other.id()
        &&& self.has_object() == other.has_object()
        &&& self.content_target() == other.content_target()
        &&& self.content_handle_sound() == other.content_handle_sound()
    }

    /// The content reference, when present, is a non-empty handle.
    pub closed spec fn content_handle_sound(self) -> bool {
        match self.content {
            Some(h) => h.opt_id() is Some,
            None => true,
        }
    }

    /// A visual is well-formed in a table when its own object and its
    /// content reference (if any) are alive, and it is not its own content.
    pub open spec fn wf_in(self, t: ObjectTable) -> bool {
        &&& self.has_object()
        &&& t.is_live(self.id())
        &&& self.content_handle_sound()
        &&& match self.content_target() {
            Some(o) => t.is_live(o) && o != self.id(),
            None => true,
        }
    }

    /// Attaches the surface as this visual's content. A visual holds at
    /// most one content attachment; replacing it detaches, but does not
    /// destroy, the previous one.
    pub fn set_content(
        &mut self,
        surface: &DCompositionVirtualSurface,
        table: &mut ObjectTable,
        hr: i32,
    ) -> (r: Result<(), i32>)
        requires
            old(table).wf(),
            old(self).wf_in(*old(table)),
            surface.has_object(),
            old(table).can_add_ref(surface.id()),
            surface.id() != old(self).id(),
        ensures
            final(table).wf(),
            final(self).wf_in(*final(table)),
            final(self).id() == old(self).id(),
            final(self).pending_pos() == old(self).pending_pos(),
            final(self).visible_pos() == old(self).visible_pos(),
            succeeded(hr) ==> {
                &&& r == Ok::<(), i32>(())
                &&& final(self).content_target() == Some(surface.id())
                &&& final(table).counts() == attach_counts(
                    old(table).counts(),
                    surface.id() as int,
                    old(self).content_target(),
                )
            },
            !succeeded(hr) ==> {
                &&& r == Err::<(), i32>(hr)
                &&& *final(self) == *old(self)
                &&& final(table).counts() == old(table).counts()
            },
    {
        if succeeded(hr) {
            let shared = surface.handle.share(table);
            let prev = self.content.take();
            self.content = Some(shared);
            match prev {
                Some(h) => h.release(table),
                None => {},
            }
            Ok(())
        } else {
            Err(hr)
        }
    }

    /// The offset that updates have written, not yet necessarily visible.
    pub fn pending(&self) -> (r: (i32, i32))
        ensures
            r == self.pending_pos(),
    {
        (self.pending_x, self.pending_y)
    }

    /// The offset the composed output currently shows.
    pub fn visible(&self) -> (r: (i32, i32))
        ensures
            r == self.visible_pos(),
    {
        (self.visible_x, self.visible_y)
    }

    /// Writes the visual's screen-space offset. Only the pending value
    /// moves; the visible offset changes at the next commit.
    pub fn set_pos(&mut self, x: i32, y: i32)
        ensures
            set_pos_rel(*old(self), *final(self), x, y),
    {
        self.pending_x = x;
        self.pending_y = y;
    }

    /// Releases the content reference (if any) and the visual's own handle.
    pub fn release(self, table: &mut ObjectTable)
        requires
            old(table).wf(),
            self.wf_in(*old(table)),
        ensures
            final(table).wf(),
            final(table).counts() == detach_counts(
                old(table).counts(),
                self.id() as int,
                self.content_target(),
            ),
    {
        match self.content {
            Some(h) => h.release(table),
            None => {},
        }
        self.handle.release(table);
    }
}

/// What a begin-draw does to the surface: only the state moves, to Drawing.
pub open spec fn begin_rel(a: DCompositionVirtualSurface, b: DCompositionVirtualSurface) -> bool {
    &&& b.state() == SurfaceState::Drawing
    &&& b.same_store(a)
    &&& b.content() == a.content()
}

/// What an end-draw does to the surface: the state returns to Idle; on
/// success the session's commands become the backing-store picture, on
/// failure the old picture is kept and the failure is reported.
pub open spec fn end_rel(
    a: DCompositionVirtualSurface,
    b: DCompositionVirtualSurface,
    cmds: Seq<DrawCmd>,
    hr: i32,
) -> bool {
    &&& b.state() == SurfaceState::Idle
    &&& b.same_store(a)
    &&& b.content() == if succeeded(hr) {
        cmds
    } else {
        a.content()
    }
}

impl DCompositionVirtualSurface {
    pub closed spec fn id(self) -> usize {
        self.handle.target()
    }

    pub closed spec fn has_object(self) -> bool {
        self.handle.opt_id() is Some
    }

    pub closed spec fn width(self) -> u32 {
        self.width
    }

    pub closed spec fn height(self) -> u32 {
        self.height
    }

    pub closed spec fn state(self) -> SurfaceState {
        self.state
    }

    /// The backing-store picture: the commands of the most recently
    /// committed draw session.
    pub closed spec fn content(self) -> Seq<DrawCmd> {
        self.content@
    }

    /// Identity and logical dimensions are untouched.
    pub open spec fn same_store(self, other: DCompositionVirtualSurface) -> bool {
        &&& self.id() == other.id()
        &&& self.has_object() == other.has_object()
        &&& self.width() == other.width()
        &&& self.height() == other.height()
    }

    pub open spec fn wf(self) -> bool {
        self.has_object() && self.width() >= 1 && self.height() >= 1
    }

    /// True while no draw session is open.
    pub fn is_idle(&self) -> (b: bool)
        ensures
            b == (self.state() == SurfaceState::Idle),
    {
        match self.state {
            SurfaceState::Idle => true,
            SurfaceState::Drawing => false,
        }
    }

    /// The backing-store picture, for inspection.
    pub fn content_cmds(&self) -> (r: &Vec<DrawCmd>)
        ensures
            r@ == self.content(),
    {
        &self.content
    }

    /// The id of the owned surface object.
    pub fn object_id(&self) -> (r: usize)
        requires
            self.has_object(),
        ensures
            r == self.id(),
    {
        self.handle.ptr()
    }

    /// The current logical dimensions.
    pub fn size(&self) -> (r: (u32, u32))
        ensures
            r.0 == self.width(),
            r.1 == self.height(),
    {
        (self.width, self.height)
    }

    /// The width of a draw session's region: the given sub-rectangle, or
    /// the whole surface if none is given.
    pub open spec fn session_width(self, rect: Option<Rect>) -> u32 {
        match rect {
            Some(rc) => (rc.right - rc.left) as u32,
            None => self.width(),
        }
    }

    pub open spec fn session_height(self, rect: Option<Rect>) -> u32 {
        match rect {
            Some(rc) => (rc.bottom - rc.top) as u32,
            None => self.height(),
        }
    }

    /// Opens a draw session, valid only while Idle — the precondition
    /// makes a second begin-draw before the matching end-draw fail
    /// verification, so a nested session is structurally impossible. On
    /// success the surface is Drawing and the returned context is scoped to the given
    /// sub-rectangle (or the whole surface), with the offset by which the
    /// backing allocation translates the session's coordinates. If the
    /// allocation cannot produce a context the surface stays Idle and the
    /// status is reported.
    pub fn begin_draw(
        &mut self,
        rect: Option<Rect>,
        offset_x: u32,
        offset_y: u32,
        hr: i32,
    ) -> (r: Result<RenderTarget, i32>)
        requires
            old(self).wf(),
            old(self).state() == SurfaceState::Idle,
            match rect {
                Some(rc) => rc.nonempty() && rc.within(old(self).width(), old(self).height()),
                None => true,
            },
            offset_x + old(self).session_width(rect) <= u32::MAX,
            offset_y + old(self).session_height(rect) <= u32::MAX,
        ensures
            final(self).wf(),
            succeeded(hr) ==> {
                &&& begin_rel(*old(self), *final(self))
                &&& r is Ok
                &&& (r->Ok_0).wf()
                &&& (r->Ok_0).session_id() == Some(old(self).id())
                &&& (r->Ok_0).frame() == (Frame {
                    off_x: offset_x,
                    off_y: offset_y,
                    width: old(self).session_width(rect),
                    height: old(self).session_height(rect),
                })
                &&& (r->Ok_0).is_recording()
                &&& (r->Ok_0).cmds() == Seq::<DrawCmd>::empty()
            },
            !succeeded(hr) ==> r == Err::<RenderTarget, i32>(hr) && *final(self) == *old(self),
    {
        if !succeeded(hr) {
            return Err(hr);
        }
        let (w, h) = match rect {
            Some(rc) => ((rc.right - rc.left), (rc.bottom - rc.top)),
            None => (self.width, self.height),
        };
        self.state = SurfaceState::Drawing;
        let id = self.handle.ptr();
        let frame = Frame { off_x: offset_x, off_y: offset_y, width: w, height: h };
        Ok(RenderTarget::open_context(Some(id), frame))
    }

    /// Closes the session: the surface returns to Idle and, on success, the
    /// session's commands are committed into the backing store. A failure
    /// is reported to the caller — the compositor's view of the surface is
    /// then indeterminate relative to what was drawn, so the old picture is
    /// modeled as kept. Consuming the context here is what leaves no
    /// outstanding drawing context after an end-draw.
    pub fn end_draw(&mut self, rt: RenderTarget, hr: i32) -> (r: Result<(), i32>)
        requires
            old(self).wf(),
            old(self).state() == SurfaceState::Drawing,
            rt.session_id() == Some(old(self).id()),
        ensures
            final(self).wf(),
            end_rel(*old(self), *final(self), rt.cmds(), hr),
            succeeded(hr) ==> r == Ok::<(), i32>(()),
            !succeeded(hr) ==> r == Err::<(), i32>(hr),
    {
        self.state = SurfaceState::Idle;
        if succeeded(hr) {
            self.content = rt.into_commands();
        }
        unit_err(hr)
    }

    /// Changes the logical dimensions, valid only while Idle. Existing
    /// pixel content is not preserved at the new dimensions — the caller
    /// must re-render in full — so the picture is cleared; on failure the
    /// previous dimensions and picture are retained in full: no
    /// partial-resize state exists.
    pub fn resize(&mut self, width: u32, height: u32, hr: i32) -> (r: Result<(), i32>)
        requires
            old(self).wf(),
            old(self).state() == SurfaceState::Idle,
            width >= 1,
            height >= 1,
        ensures
            final(self).wf(),
            final(self).state() == SurfaceState::Idle,
            final(self).id() == old(self).id(),
            final(self).has_object() == old(self).has_object(),
            succeeded(hr) ==> {
                &&& r == Ok::<(), i32>(())
                &&& final(self).width() == width
                &&& final(self).height() == height
                &&& final(self).content() == Seq::<DrawCmd>::empty()
            },
            !succeeded(hr) ==> r == Err::<(), i32>(hr) && *final(self) == *old(self),
    {
        if succeeded(hr) {
            self.width = width;
            self.height = height;
            self.content = Vec::new();
        }
        unit_err(hr)
    }

    /// Releases the handle's unit of ownership. Destruction happens from
    /// Idle only.
    pub fn release(self, table: &mut ObjectTable)
        requires
            old(table).wf(),
            self.has_object(),
            old(table).is_live(self.id()),
            self.state() == SurfaceState::Idle,
        ensures
            final(table).wf(),
            final(table).counts() == old(table).counts().update(
                self.id() as int,
                (old(table).counts()[self.id() as int] - 1) as u64,
            ),
    {
        self.handle.release(table);
    }
}

/// A begin-draw followed by its end-draw, with no nested begin-draw,
/// returns the surface to Idle, and no drawing context survives
/// `end_draw`, which consumes it. In between, the surface is Drawing and
/// in particular not Idle, so the intermediate state fails `begin_draw`'s
/// precondition: a second begin-draw before the end-draw is rejected at
/// verification time, never at run time.
pub proof fn lemma_draw_session_returns_to_idle(
    s0: DCompositionVirtualSurface,
    s1: DCompositionVirtualSurface,
    s2: DCompositionVirtualSurface,
    cmds: Seq<DrawCmd>,
    hr: i32,
)
    requires
        s0.state() == SurfaceState::Idle,
        begin_rel(s0, s1),
        end_rel(s1, s2, cmds, hr),
    ensures
        s1.state() == SurfaceState::Drawing,
        s1.state() != SurfaceState::Idle,
        s2.state() == SurfaceState::Idle,
        s2.same_store(s0),
{
}

/// Two consecutive pointer-move updates with identical coordinates followed
/// by one commit leave the visual at exactly that single position, with no
/// intermediate visible state: neither update publishes anything, and the
/// commit publishes the one position.
pub proof fn lemma_pointer_moves_coalesce(
    v0: DCompositionVisual,
    v1: DCompositionVisual,
    v2: DCompositionVisual,
    v3: DCompositionVisual,
    x: i32,
    y: i32,
)
    requires
        set_pos_rel(v0, v1, x, y),
        set_pos_rel(v1, v2, x, y),
        commit_rel(v2, v3),
    ensures
        v1.visible_pos() == v0.visible_pos(),
        v2.visible_pos() == v0.visible_pos(),
        v3.visible_pos() == (x, y),
        v3.pending_pos() == (x, y),
{
}

} // verus!
