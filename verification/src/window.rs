//! Dispatch of window notifications to their handlers.
//!
//! Instead of stashing a handler pointer in window-system storage, an
//! explicit registry maps window identifiers to handler instances: an entry
//! is added when the window is created and removed when the window is
//! destroyed, and dispatch looks the handler up by the window id. The
//! dispatch entry point is the sole holder of mutable access to a window's
//! state for the duration of one notification.

use vstd::prelude::*;
use crate::comptr::ObjectTable;
use crate::main_win::{event_allowed, window_proc_rel, Event, MainWin};
use crate::util::Error;

verus! {

/// The process-wide map from window identifiers to handler instances.
pub struct WindowRegistry {
    entries: Vec<(u64, MainWin)>,
}

impl WindowRegistry {
    pub closed spec fn entries(self) -> Seq<(u64, MainWin)> {
        self.entries@
    }

    /// Each window identifier appears at most once.
    pub open spec fn wf(self) -> bool {
        forall|i: int, j: int|
            0 <= i < j < self.entries().len() ==> (#[trigger] self.entries()[i]).0 != (
            #[trigger] self.entries()[j]).0
    }

    pub open spec fn has_hwnd(self, hwnd: u64) -> bool {
        exists|i: int| 0 <= i < self.entries().len() && (#[trigger] self.entries()[i]).0 == hwnd
    }

    /// Every handler registered under `hwnd` is ready for the event.
    pub open spec fn ready_for(self, t: ObjectTable, hwnd: u64, event: Event) -> bool {
        forall|i: int|
            0 <= i < self.entries().len() && (#[trigger] self.entries()[i]).0 == hwnd ==> {
                &&& self.entries()[i].1.wf_in(t)
                &&& event_allowed(self.entries()[i].1.state_spec(), t, event)
            }
    }

    pub fn new() -> (r: WindowRegistry)
        ensures
            r.wf(),
            r.entries() == Seq::<(u64, MainWin)>::empty(),
    {
        WindowRegistry { entries: Vec::new() }
    }

    pub fn num_windows(&self) -> (n: usize)
        ensures
            n == self.entries().len(),
    {
        self.entries.len()
    }

    /// One registry entry, for inspection.
    pub fn entry_at(&self, i: usize) -> (r: &(u64, MainWin))
        requires
            i < self.entries().len(),
        ensures
            *r == self.entries()[i as int],
    {
        &self.entries[i]
    }

    fn find(&self, hwnd: u64) -> (r: Option<usize>)
        ensures
            match r {
                Some(i) => i < self.entries().len() && self.entries()[i as int].0 == hwnd,
                None => !self.has_hwnd(hwnd),
            },
    {
        let n = self.entries.len();
        let mut i: usize = 0;
        while i < n
            invariant
                n == self.entries().len(),
                0 <= i <= n,
                forall|j: int| 0 <= j < i ==> (#[trigger] self.entries()[j]).0 != hwnd,
            decreases n - i,
        {
            if self.entries[i].0 == hwnd {
                return Some(i);
            }
            i = i + 1;
        }
        None
    }
}

/// The registry's entries once a handler handed in with the notification
/// has been registered under the window id.
pub open spec fn entries_after_register(
    reg0: WindowRegistry,
    hwnd: u64,
    created: Option<MainWin>,
) -> Seq<(u64, MainWin)> {
    match created {
        Some(w) => reg0.entries().push((hwnd, w)),
        None => reg0.entries(),
    }
}

/// How the dispatcher maps a handler's answer to a result code: the
/// handler's own value, `0` for a declined event (the window system's
/// default handling), `-1` for a failed one.
pub open spec fn dispatch_code(res: Option<Result<i64, Error>>) -> i64 {
    match res {
        Some(result) => match result {
            Ok(v) => v,
            Err(_) => -1i64,
        },
        None => 0i64,
    }
}

/// Routes one window notification. A handler handed in with the
/// notification (the window-created path) is registered first; the handler
/// registered under the window id then receives the event: afterwards some
/// entry of the pre-dispatch registry held that handler, the handler and
/// the object table have evolved from their old values exactly by
/// [`window_proc_rel`], the result is the handler's answer mapped by
/// [`dispatch_code`], and the registry keeps the evolved handler under the
/// same id — except after a window-destroyed notification, which removes
/// the entry. With no handler registered and none handed in, nothing
/// happens and the default `0` is returned.
pub fn win_proc_dispatch(
    reg: &mut WindowRegistry,
    table: &mut ObjectTable,
    hwnd: u64,
    event: Event,
    created: Option<MainWin>,
) -> (r: i64)
    requires
        old(table).wf(),
        old(reg).wf(),
        match created {
            Some(w) => {
                &&& !old(reg).has_hwnd(hwnd)
                &&& w.wf_in(*old(table))
                &&& event_allowed(w.state_spec(), *old(table), event)
            },
            None => old(reg).ready_for(*old(table), hwnd, event),
        },
    ensures
        final(table).wf(),
        final(reg).wf(),
        event is Destroyed ==> !final(reg).has_hwnd(hwnd),
        created is None && !old(reg).has_hwnd(hwnd) ==> r == 0 && *final(reg) == *old(reg)
            && *final(table) == *old(table),
        (created is Some || old(reg).has_hwnd(hwnd)) && !(event is Destroyed)
            ==> final(reg).has_hwnd(hwnd),
        created is Some || old(reg).has_hwnd(hwnd) ==> ({
            let pre = entries_after_register(*old(reg), hwnd, created);
            exists|i: int, w1: MainWin, res: Option<Result<i64, Error>>|
                {
                    &&& 0 <= i < pre.len()
                    &&& pre[i].0 == hwnd
                    &&& #[trigger] window_proc_rel(
                        pre[i].1,
                        w1,
                        *old(table),
                        *final(table),
                        event,
                        res,
                    )
                    &&& w1.wf_in(*final(table))
                    &&& r == dispatch_code(res)
                    &&& if event is Destroyed {
                        final(reg).entries() == pre.remove(i)
                    } else {
                        final(reg).entries() == pre.update(i, (hwnd, w1))
                    }
                }
        }),
{
    let ghost created0 = created;
    let ghost old_len = reg.entries().len() as int;
    match created {
        Some(w) => {
            reg.entries.push((hwnd, w));
            proof {
                assert forall|i: int, j: int|
                    0 <= i < j < reg.entries().len() implies (#[trigger] reg.entries()[i]).0 != (
                    #[trigger] reg.entries()[j]).0 by {
                    if j == old_len {
                        assert(reg.entries()[i] == old(reg).entries()[i]);
                    }
                }
            }
        },
        None => {},
    }
    let ghost pre = entries_after_register(*old(reg), hwnd, created0);
    proof {
        assert(reg.entries() == pre);
    }
    let idx = reg.find(hwnd);
    match idx {
        Some(i) => {
            proof {
                if pre.len() > old_len && i < old_len {
                    assert(reg.entries()[i as int] == old(reg).entries()[i as int]);
                    assert(old(reg).has_hwnd(hwnd));
                    assert(false);
                }
                if created0 is Some {
                    assert(pre[i as int] == (hwnd, created0->Some_0));
                }
            }
            let entry = &mut reg.entries[i];
            let res = entry.1.window_proc(table, event);
            let ghost w1 = reg.entries()[i as int].1;
            proof {
                assert forall|a: int|
                    0 <= a < reg.entries().len() implies (#[trigger] reg.entries()[a]).0
                    == pre[a].0 by {
                    if a != i {
                        assert(reg.entries()[a] == pre[a]);
                    }
                }
                assert forall|a: int, b: int|
                    0 <= a < b < reg.entries().len() implies (#[trigger] reg.entries()[a]).0 != (
                    #[trigger] reg.entries()[b]).0 by {
                    assert(pre[a].0 != pre[b].0);
                }
                assert(reg.entries() =~= pre.update(i as int, (hwnd, w1)));
            }
            let code: i64 = match res {
                Some(result) => {
                    match result {
                        Ok(v) => v,
                        Err(_) => -1,
                    }
                },
                None => 0,
            };
            let ghost before_remove = reg.entries();
            let destroyed = matches!(event, Event::Destroyed);
            if destroyed {
                reg.entries.remove(i);
                proof {
                    assert forall|a: int, b: int|
                        0 <= a < b < reg.entries().len() implies (
                        #[trigger] reg.entries()[a]).0 != (#[trigger] reg.entries()[b]).0 by {
                        assert(reg.entries()[a] == if a < i {
                            before_remove[a]
                        } else {
                            before_remove[a + 1]
                        });
                        assert(reg.entries()[b] == if b < i {
                            before_remove[b]
                        } else {
                            before_remove[b + 1]
                        });
                    }
                    assert forall|a: int|
                        0 <= a < reg.entries().len() implies (#[trigger] reg.entries()[a]).0
                        != hwnd by {
                        assert(before_remove[i as int].0 == hwnd);
                        if a < i {
                            assert(reg.entries()[a] == before_remove[a]);
                            assert(before_remove[a].0 != before_remove[i as int].0);
                        } else {
                            assert(reg.entries()[a] == before_remove[a + 1]);
                            assert(before_remove[a + 1].0 != before_remove[i as int].0);
                        }
                    }
                    assert(reg.entries() =~= pre.remove(i as int));
                }
            }
            proof {
                assert(window_proc_rel(pre[i as int].1, w1, *old(table), *final(table), event,
                    res));
                assert(code == dispatch_code(res));
            }
            code
        },
        None => {
            proof {
                if created0 is Some {
                    assert(reg.entries()[old_len].0 == hwnd);
                    assert(false);
                }
            }
            0
        },
    }
}

} // verus!
