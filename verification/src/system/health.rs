//! One round of the health task: tick every watched device, and flag the
//! system as failed when one of them goes offline.
use vstd::prelude::*;

use crate::system::devices::{distinct_entries, position, watches, Device, Watch, WatchView};
use crate::system::heartbeat::spec_tick;
use crate::system::status::{SysMode, SysStatus};

verus! {

/// The watch list after one tick of every heartbeat.
pub open spec fn ticked(w: WatchView) -> WatchView {
    Seq::new(w.len(), |i: int| (w[i].0, spec_tick(w[i].1).0))
}

/// Some heartbeat of `w` goes offline on its next tick.
pub open spec fn some_expires(w: WatchView) -> bool {
    exists|i: int| 0 <= i < w.len() && !(#[trigger] spec_tick(w[i].1)).1
}

/// The devices of `w` that are offline, in order.
pub open spec fn offline_devices(w: WatchView) -> Seq<Device>
    decreases w.len(),
{
    if w.len() == 0 {
        Seq::empty()
    } else {
        let rest = offline_devices(w.drop_last());
        if !w.last().1.0 {
            rest.push(w.last().0)
        } else {
            rest
        }
    }
}

/// Tick every watched device; when one goes offline, set the system mode to
/// `Error`.
pub fn health_tick(watch: &mut Watch, status: &mut SysStatus)
    ensures
        final(watch)@ == ticked(old(watch)@),
        final(status)@ == (if some_expires(old(watch)@) {
            SysMode::Error.spec_bits()
        } else {
            old(status)@
        }),
{
    let n = watch.len();
    let ghost w0 = watch@;
    let mut i: usize = 0;
    while i < n
        invariant
            n == w0.len(),
            distinct_entries(w0),
            i <= n,
            watch@.len() == n,
            forall|j: int| 0 <= j < i ==> #[trigger] watch@[j] == (w0[j].0, spec_tick(w0[j].1).0),
            forall|j: int| i <= j < n ==> #[trigger] watch@[j] == w0[j],
            status@ == (if exists|j: int| 0 <= j < i && !(#[trigger] spec_tick(w0[j].1)).1 {
                SysMode::Error.spec_bits()
            } else {
                old(status)@
            }),
        decreases n - i,
    {
        let (d, _) = watch.entry(i);
        let ghost wb = watch@;
        proof {
            assert(distinct_entries(wb)) by {
                assert forall|a: int, b: int| 0 <= a < b < wb.len() implies wb[a].0 != wb[b].0 by {
                    assert(wb[a].0 == w0[a].0);
                    assert(wb[b].0 == w0[b].0);
                }
            }
            assert(watches(wb, d));
            let p = position(wb, d);
            assert(p == i);
        }
        let alive = d.tick(watch);
        if !alive {
            SysMode::Error.set(status);
        }
        proof {
            assert forall|j: int| 0 <= j < n && j != i implies watch@[j] == wb[j] by {
                assert(wb[j].0 != d);
            }
            assert(watch@[i as int] == (w0[i as int].0, spec_tick(w0[i as int].1).0));
            if !alive {
                assert(!spec_tick(w0[i as int].1).1);
            }
        }
        i = i + 1;
    }
    assert(watch@ =~= ticked(w0));
}

/// The devices that are offline, in watch list order.
pub fn offline(watch: &Watch) -> (r: Vec<Device>)
    ensures
        r@ == offline_devices(watch@),
{
    let n = watch.len();
    let mut out: Vec<Device> = Vec::new();
    let mut i: usize = 0;
    while i < n
        invariant
            n == watch@.len(),
            i <= n,
            out@ == offline_devices(watch@.take(i as int)),
        decreases n - i,
    {
        let (d, h) = watch.entry(i);
        assert(watch@.take(i + 1).drop_last() =~= watch@.take(i as int));
        if !h.check() {
            out.push(d);
        }
        i = i + 1;
    }
    assert(watch@.take(n as int) =~= watch@);
    out
}

} // verus!
