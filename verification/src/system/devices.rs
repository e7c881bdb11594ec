//! Monitored devices and the watch list that pairs each with its heartbeat.
use vstd::prelude::*;

use crate::system::heartbeat::{after_ticks, fed_after, lemma_heartbeat_expiry, spec_tick, HeartBeat};

verus! {

/// A monitored device.
#[derive(Debug, Clone, Copy, PartialEq, Eq, Structural)]
pub enum Device {
    Placeholder,
}

/// The entries of a watch list: each device with its heartbeat state.
pub type WatchView = Seq<(Device, (bool, i8))>;

/// `d` is in the watch list `w`.
pub open spec fn watches(w: WatchView, d: Device) -> bool {
    exists|i: int| 0 <= i < w.len() && #[trigger] w[i].0 == d
}

/// The position of `d` in the watch list `w`, when it is there.
pub open spec fn position(w: WatchView, d: Device) -> int {
    choose|i: int| 0 <= i < w.len() && #[trigger] w[i].0 == d
}

/// The heartbeat state of `d` in the watch list `w`, when it is there.
pub open spec fn heart_of(w: WatchView, d: Device) -> (bool, i8) {
    w[position(w, d)].1
}

/// No device occurs twice in `devices`.
pub open spec fn distinct(devices: Seq<Device>) -> bool {
    forall|i: int, j: int| 0 <= i < j < devices.len() ==> devices[i] != devices[j]
}

/// No device occurs twice in the watch list `w`.
pub open spec fn distinct_entries(w: WatchView) -> bool {
    forall|i: int, j: int| 0 <= i < j < w.len() ==> w[i].0 != w[j].0
}

/// The watch list after the heartbeat of `d` becomes `h`.
pub open spec fn with_heart(w: WatchView, d: Device, h: (bool, i8)) -> WatchView {
    Seq::new(w.len(), |i: int| if w[i].0 == d { (d, h) } else { w[i] })
}

/// The list of monitored devices, each with its heartbeat.
#[derive(Debug)]
pub struct Watch {
    devices: Vec<Device>,
    beats: Vec<HeartBeat>,
}

impl View for Watch {
    type V = WatchView;

    closed spec fn view(&self) -> WatchView {
        Seq::new(self.devices@.len(), |i: int| (self.devices@[i], self.beats@[i]@))
    }
}

impl Watch {
    #[verifier::type_invariant]
    spec fn well_formed(self) -> bool {
        &&& self.devices@.len() == self.beats@.len()
        &&& distinct(self.devices@)
    }

    /// A watch list of `devices`, each offline with TTL zero; `None` when a
    /// device occurs twice.
    pub fn new(devices: Vec<Device>) -> (r: Option<Watch>)
        ensures
            r is Some <==> distinct(devices@),
            r matches Some(w) ==> w@ == Seq::new(
                devices@.len(),
                |i: int| (devices@[i], (false, 0i8)),
            ),
    {
        let n = devices.len();
        let mut i: usize = 0;
        while i < n
            invariant
                n == devices@.len(),
                i <= n,
                forall|a: int, b: int| 0 <= a < b < n && a < i ==> devices@[a] != devices@[b],
            decreases n - i,
        {
            let mut j: usize = i + 1;
            while j < n
                invariant
                    n == devices@.len(),
                    i < n,
                    i < j <= n,
                    forall|b: int| i < b < j ==> devices@[i as int] != devices@[b],
                decreases n - j,
            {
                if devices[i] == devices[j] {
                    assert(!distinct(devices@));
                    return None;
                }
                j = j + 1;
            }
            i = i + 1;
        }
        let mut beats: Vec<HeartBeat> = Vec::new();
        let mut k: usize = 0;
        while k < n
            invariant
                k <= n,
                beats@.len() == k,
                forall|a: int| 0 <= a < k ==> (#[trigger] beats@[a])@ == (false, 0i8),
            decreases n - k,
        {
            beats.push(HeartBeat::new());
            k = k + 1;
        }
        let w = Watch { devices, beats };
        assert(w@ =~= Seq::new(n as nat, |i: int| (w.devices@[i], (false, 0i8))));
        Some(w)
    }

    /// The number of watched devices; no device occurs twice.
    pub fn len(&self) -> (r: usize)
        ensures
            r == self@.len(),
            distinct_entries(self@),
    {
        proof {
            use_type_invariant(self);
        }
        self.devices.len()
    }

    /// The `i`-th device and its heartbeat.
    pub fn entry(&self, i: usize) -> (r: (Device, HeartBeat))
        requires
            i < self@.len(),
        ensures
            r.0 == self@[i as int].0,
            r.1@ == self@[i as int].1,
    {
        proof {
            use_type_invariant(self);
        }
        (self.devices[i], self.beats[i])
    }

    fn index_of(&self, d: Device) -> (r: Option<usize>)
        ensures
            match r {
                Some(i) => i < self@.len() && self@[i as int].0 == d && position(self@, d) == i,
                None => !watches(self@, d),
            },
    {
        proof {
            use_type_invariant(self);
        }
        let n = self.devices.len();
        let mut i: usize = 0;
        while i < n
            invariant
                n == self.devices@.len(),
                n == self.beats@.len(),
                distinct(self.devices@),
                i <= n,
                forall|j: int| 0 <= j < i ==> self.devices@[j] != d,
            decreases n - i,
        {
            if self.devices[i] == d {
                proof {
                    assert(self@[i as int].0 == d);
                    let p = position(self@, d);
                    assert(self@[p].0 == d);
                    assert(p == i);
                }
                return Some(i);
            }
            i = i + 1;
        }
        assert forall|j: int| 0 <= j < self@.len() implies #[trigger] self@[j].0 != d by {
            assert(self@[j].0 == self.devices@[j]);
        }
        None
    }

    fn heart(&self, d: Device) -> (r: Option<HeartBeat>)
        ensures
            match r {
                Some(h) => watches(self@, d) && h@ == heart_of(self@, d),
                None => !watches(self@, d),
            },
    {
        proof {
            use_type_invariant(self);
        }
        match self.index_of(d) {
            Some(i) => Some(self.beats[i]),
            None => None,
        }
    }

    fn put_heart(&mut self, d: Device, h: HeartBeat)
        requires
            watches(old(self)@, d),
        ensures
            final(self)@ == with_heart(old(self)@, d, h@),
    {
        proof {
            use_type_invariant(&*self);
        }
        let i = self.index_of(d).unwrap();
        let mut taken = Watch { devices: Vec::new(), beats: Vec::new() };
        std::mem::swap(&mut taken, self);
        proof {
            use_type_invariant(&taken);
        }
        let Watch { devices, mut beats } = taken;
        beats.set(i, h);
        *self = Watch { devices, beats };
        proof {
            assert forall|j: int| 0 <= j < self@.len() && j != i implies self@[j].0 != d by {
                assert(old(self)@[j].0 == self.devices@[j]);
            }
        }
        assert(self@ =~= with_heart(old(self)@, d, h@));
    }
}

impl Device {
    /// Health check interval in milliseconds.
    pub const HEALTH_MS: u8 = 100;

    /// Device expiration time in milliseconds.
    pub const EXPIRE_MS: u16 = 500;

    /// The TTL that feeding a heartbeat sets: the number of health checks
    /// within the expiration time.
    pub open spec fn spec_max_ttl() -> i8 {
        (Self::EXPIRE_MS / Self::HEALTH_MS as u16) as i8
    }

    fn max_ttl() -> (r: i8)
        ensures
            r == Self::spec_max_ttl(),
    {
        (Self::EXPIRE_MS / Self::HEALTH_MS as u16) as i8
    }

    /// Health check interval in milliseconds.
    pub fn interval() -> (r: u64)
        ensures
            r == Self::HEALTH_MS,
    {
        Self::HEALTH_MS as u64
    }

    /// A health formatter for this device.
    pub fn display(&self) -> (r: Display<'_>)
        ensures
            *r.inner == *self,
    {
        Display { inner: self }
    }

    /// Feed the heartbeat of this device.
    pub fn feed(&self, watch: &mut Watch)
        requires
            watches(old(watch)@, *self),
        ensures
            final(watch)@ == with_heart(old(watch)@, *self, (true, Self::spec_max_ttl())),
    {
        let mut h = watch.heart(*self).unwrap();
        h.feed(Self::max_ttl());
        watch.put_heart(*self, h);
    }

    /// Kill the heartbeat of this device.
    pub fn kill(&self, watch: &mut Watch)
        requires
            watches(old(watch)@, *self),
        ensures
            final(watch)@ == with_heart(old(watch)@, *self, (false, 0i8)),
    {
        let mut h = watch.heart(*self).unwrap();
        h.kill();
        watch.put_heart(*self, h);
    }

    /// Whether the heartbeat of this device is alive.
    pub fn check(&self, watch: &Watch) -> (r: bool)
        requires
            watches(watch@, *self),
        ensures
            r == heart_of(watch@, *self).0,
    {
        let h = watch.heart(*self).unwrap();
        h.check()
    }

    /// Tick the heartbeat of this device; returns whether it is still online.
    pub fn tick(&self, watch: &mut Watch) -> (r: bool)
        requires
            watches(old(watch)@, *self),
        ensures
            final(watch)@ == with_heart(
                old(watch)@,
                *self,
                crate::system::heartbeat::spec_tick(heart_of(old(watch)@, *self)).0,
            ),
            r == crate::system::heartbeat::spec_tick(heart_of(old(watch)@, *self)).1,
    {
        let mut h = watch.heart(*self).unwrap();
        let r = h.tick();
        watch.put_heart(*self, h);
        r
    }
}

/// Setting the heartbeat state of a watched device is what reading it back
/// gives, and leaves the set of watched devices as it was.
pub proof fn lemma_heart_roundtrip(w: WatchView, d: Device, h: (bool, i8), e: Device)
    requires
        watches(w, d),
    ensures
        watches(with_heart(w, d, h), d),
        heart_of(with_heart(w, d, h), d) == h,
        watches(with_heart(w, d, h), e) == watches(w, e),
{
    let w2 = with_heart(w, d, h);
    let i = choose|i: int| 0 <= i < w.len() && #[trigger] w[i].0 == d;
    assert(w2[i].0 == d);
    if watches(w, e) {
        let k = choose|k: int| 0 <= k < w.len() && #[trigger] w[k].0 == e;
        assert(w2[k].0 == e);
    }
    if watches(w2, e) {
        let k = choose|k: int| 0 <= k < w2.len() && #[trigger] w2[k].0 == e;
        assert(w[k].0 == e);
    }
}

/// The watch list after `k` ticks of device `d`, starting from `w`.
pub open spec fn device_ticks(w: WatchView, d: Device, k: nat) -> WatchView
    decreases k,
{
    if k == 0 {
        w
    } else {
        let p = device_ticks(w, d, (k - 1) as nat);
        with_heart(p, d, spec_tick(heart_of(p, d)).0)
    }
}

proof fn lemma_device_ticks(w: WatchView, d: Device, k: nat)
    requires
        watches(w, d),
    ensures
        watches(device_ticks(w, d, k), d),
        heart_of(device_ticks(w, d, k), d) == after_ticks(heart_of(w, d), k),
    decreases k,
{
    if k > 0 {
        lemma_device_ticks(w, d, (k - 1) as nat);
        let p = device_ticks(w, d, (k - 1) as nat);
        lemma_heart_roundtrip(p, d, spec_tick(heart_of(p, d)).0, d);
    }
}

/// A watched device that was fed and then ticked `k` times stays watched and
/// has the heartbeat of a heartbeat fed with `Device::spec_max_ttl()` (which
/// is 5: 500 ms over 100 ms checks) after `k` ticks; its `k + 1`-th tick
/// reports it online exactly when `k + 1 < 5`.
pub proof fn lemma_device_expiry(w: WatchView, d: Device, k: nat)
    requires
        watches(w, d),
    ensures
        Device::spec_max_ttl() == 5,
        ({
            let fed = with_heart(w, d, (true, Device::spec_max_ttl()));
            let wk = device_ticks(fed, d, k);
            &&& watches(wk, d)
            &&& heart_of(wk, d) == fed_after(Device::spec_max_ttl(), k)
            &&& spec_tick(heart_of(wk, d)).1 == (k + 1 < Device::spec_max_ttl())
        }),
{
    let (e, h) = (Device::EXPIRE_MS, Device::HEALTH_MS);
    assert(((e / h as u16) as i8) == 5i8) by (bit_vector)
        requires
            e == 500u16,
            h == 100u8,
    ;
    let fed = with_heart(w, d, (true, Device::spec_max_ttl()));
    lemma_heart_roundtrip(w, d, (true, Device::spec_max_ttl()), d);
    lemma_device_ticks(fed, d, k);
    lemma_heartbeat_expiry(Device::spec_max_ttl(), k);
}

/// What the health line of a device says.
#[derive(Debug, Clone, Copy, PartialEq, Eq)]
pub enum Health {
    /// The device is online, with this TTL left.
    Online { ttl: i8 },
    /// The device is offline.
    Offline,
    /// The device is not in the watch list.
    NoHeartbeat,
}

/// Health formatter of a device.
pub struct Display<'t> {
    pub inner: &'t Device,
}

impl<'t> Display<'t> {
    /// The health line of the device in `watch`.
    pub fn format(&self, watch: &Watch) -> (r: Health)
        ensures
            r == (if !watches(watch@, *self.inner) {
                Health::NoHeartbeat
            } else if heart_of(watch@, *self.inner).0 {
                Health::Online { ttl: heart_of(watch@, *self.inner).1 }
            } else {
                Health::Offline
            }),
    {
        match watch.heart(*self.inner) {
            Some(heart) => {
                if heart.check() {
                    Health::Online { ttl: heart.ttl() }
                } else {
                    Health::Offline
                }
            },
            None => Health::NoHeartbeat,
        }
    }
}

} // verus!
