use vstd::prelude::*;

use vstd::hash_map::StringHashMap;

use crate::clock::now_millis;
use crate::device::DeviceInfo;

verus! {

/// A device's presence expires this many milliseconds after it was last
/// heard from.
pub const PRESENCE_TIMEOUT_MILLIS: i64 = 30000;

/// Whether a device last seen at `last_seen` is live at `now`: its age is
/// strictly below the presence timeout.
pub open spec fn is_live(now: int, last_seen: int) -> bool {
    now - last_seen < PRESENCE_TIMEOUT_MILLIS as int
}

/// Whether the roster `r` holds an entry for the identifier `k`.
pub open spec fn roster_contains(r: Seq<DeviceInfo>, k: Seq<char>) -> bool {
    exists|i: int| 0 <= i < r.len() && #[trigger] r[i].id@ == k
}

/// What a correct live roster is: every entry is a registered device that is
/// live at `now`, reported exactly as the registry holds it; every live
/// registered device appears; and no identifier appears twice.
pub open spec fn live_roster(r: Seq<DeviceInfo>, m: Map<Seq<char>, DeviceInfo>, now: int) -> bool {
    &&& forall|i: int|
        #![trigger r[i]]
        0 <= i < r.len() ==> m.contains_key(r[i].id@) && r[i] == m[r[i].id@] && is_live(
            now,
            r[i].last_seen as int,
        )
    &&& forall|k: Seq<char>|
        #[trigger] m.contains_key(k) && is_live(now, m[k].last_seen as int) ==> roster_contains(
            r,
            k,
        )
    &&& forall|i: int, j: int|
        #![trigger r[i], r[j]]
        0 <= i < j < r.len() ==> r[i].id@ != r[j].id@
}

/// A registration at stamp `t`: the device is inserted under its identifier
/// with `last_seen == t`, and nothing else changes.
pub open spec fn registered_at(
    pre: Map<Seq<char>, DeviceInfo>,
    post: Map<Seq<char>, DeviceInfo>,
    id: Seq<char>,
    name: Seq<char>,
    t: i64,
) -> bool {
    &&& t >= 0
    &&& post.contains_key(id)
    &&& post[id].id@ == id
    &&& post[id].name@ == name
    &&& post[id].last_seen == t
    &&& post.remove(id) == pre.remove(id)
}

/// A touch at stamp `t`: if the device is registered, only its `last_seen`
/// moves to `t`; if it is gone, nothing happens.
pub open spec fn touched_at(
    pre: Map<Seq<char>, DeviceInfo>,
    post: Map<Seq<char>, DeviceInfo>,
    id: Seq<char>,
    t: i64,
) -> bool {
    &&& t >= 0
    &&& pre.contains_key(id) ==> post == pre.insert(
        id,
        (DeviceInfo { id: pre[id].id, name: pre[id].name, last_seen: t }),
    )
    &&& !pre.contains_key(id) ==> post == pre
}

/// The presence registry: the devices of the currently open sessions, keyed
/// by their generated identifiers. Alongside the map it keeps the list of
/// registered identifiers, so that the live view can walk every entry; the
/// two are kept in step.
pub struct DiscoveryService {
    devices: StringHashMap<DeviceInfo>,
    ids: Vec<String>,
}

impl View for DiscoveryService {
    type V = Map<Seq<char>, DeviceInfo>;

    closed spec fn view(&self) -> Map<Seq<char>, DeviceInfo> {
        self.devices@
    }
}

impl DiscoveryService {
    /// The registry's invariant: the identifier list names each registered
    /// device exactly once, every entry is stored under its own identifier,
    /// and no entry's stamp lies before the epoch.
    pub closed spec fn wf(&self) -> bool {
        &&& forall|i: int, j: int|
            #![trigger self.ids@[i], self.ids@[j]]
            0 <= i < j < self.ids@.len() ==> self.ids@[i]@ != self.ids@[j]@
        &&& forall|i: int|
            0 <= i < self.ids@.len() ==> self.devices@.contains_key(#[trigger] self.ids@[i]@)
        &&& forall|k: Seq<char>|
            #[trigger] self.devices@.contains_key(k) ==> exists|i: int|
                0 <= i < self.ids@.len() && #[trigger] self.ids@[i]@ == k
        &&& forall|k: Seq<char>|
            #[trigger] self.devices@.contains_key(k) ==> self.devices@[k].id@ == k
        &&& forall|k: Seq<char>|
            #[trigger] self.devices@.contains_key(k) ==> self.devices@[k].last_seen >= 0
    }

    pub fn new() -> (r: Self)
        ensures
            r@ == Map::<Seq<char>, DeviceInfo>::empty(),
            r.wf(),
    {
        DiscoveryService { devices: StringHashMap::new(), ids: Vec::new() }
    }

    /// Registers a device at an explicit stamp, replacing any entry already
    /// held under the identifier.
    pub fn register_device_at(&mut self, id: String, name: String, now: i64)
        requires
            old(self).wf(),
            now >= 0,
        ensures
            final(self).wf(),
            final(self)@ == old(self)@.insert(
                id@,
                (DeviceInfo { id: id, name: name, last_seen: now }),
            ),
    {
        let ghost pre = *old(self);
        let ghost gkey: Seq<char> = id@;
        let key = id.clone();
        let device = DeviceInfo { id, name, last_seen: now };
        if !self.devices.contains_key(key.as_str()) {
            self.ids.push(key.clone());
        }
        self.devices.insert(key, device);
        proof {
            assert forall|k: Seq<char>| self.devices@.contains_key(k) implies exists|i: int|
                0 <= i < self.ids@.len() && #[trigger] self.ids@[i]@ == k by {
                if pre@.contains_key(k) {
                    let i = choose|i: int| 0 <= i < pre.ids@.len() && #[trigger] pre.ids@[i]@ == k;
                    assert(self.ids@[i]@ == k);
                } else {
                    assert(k == gkey);
                    assert(self.ids@[self.ids@.len() - 1]@ == k);
                }
            }
        }
    }

    /// Registers a device, stamping it with the wall clock; the clock's
    /// value is outside anyone's control, so the contract holds for some
    /// valid stamp.
    pub fn register_device(&mut self, id: String, name: String)
        requires
            old(self).wf(),
        ensures
            final(self).wf(),
            exists|t: i64| registered_at(old(self)@, final(self)@, id@, name@, t),
    {
        let raw = now_millis();
        let now: i64 = if raw < 0 {
            0
        } else {
            raw
        };
        let ghost pre = *self;
        let ghost gkey: Seq<char> = id@;
        let ghost gname: Seq<char> = name@;
        self.register_device_at(id, name, now);
        proof {
            assert(self@.remove(gkey) =~= pre@.remove(gkey));
            assert(registered_at(pre@, self@, gkey, gname, now));
        }
    }

    /// Moves a registered device's stamp to an explicit time; a device
    /// already gone is silently left alone, since deregistration races are
    /// expected and harmless.
    pub fn update_device_timestamp_at(&mut self, id: &str, now: i64)
        requires
            old(self).wf(),
            now >= 0,
        ensures
            final(self).wf(),
            touched_at(old(self)@, final(self)@, id@, now),
    {
        let found = match self.devices.get(id) {
            Some(d) => Some((d.id.clone(), d.name.clone())),
            None => None,
        };
        match found {
            Some((did, dname)) => {
                let key = did.clone();
                self.devices.insert(key, DeviceInfo { id: did, name: dname, last_seen: now });
                proof {
                    assert(old(self)@[id@].id@ == id@);
                    assert forall|k: Seq<char>| self.devices@.contains_key(k) implies exists|
                        i: int,
                    |
                        0 <= i < self.ids@.len() && #[trigger] self.ids@[i]@ == k by {
                        assert(old(self)@.contains_key(k));
                        let i = choose|i: int|
                            0 <= i < old(self).ids@.len() && #[trigger] old(self).ids@[i]@ == k;
                        assert(self.ids@[i]@ == k);
                    }
                }
            },
            None => {},
        }
    }

    /// Moves a registered device's stamp to the wall clock.
    pub fn update_device_timestamp(&mut self, id: &str)
        requires
            old(self).wf(),
        ensures
            final(self).wf(),
            exists|t: i64| touched_at(old(self)@, final(self)@, id@, t),
    {
        let raw = now_millis();
        let now: i64 = if raw < 0 {
            0
        } else {
            raw
        };
        let ghost pre = *self;
        self.update_device_timestamp_at(id, now);
        proof {
            assert(touched_at(pre@, self@, id@, now));
        }
    }

    /// Removes a device from the registry; removing an identifier that is
    /// already gone changes nothing.
    pub fn remove_device(&mut self, id: &str)
        requires
            old(self).wf(),
        ensures
            final(self).wf(),
            final(self)@ == old(self)@.remove(id@),
    {
        let ghost pre = *old(self);
        let key: String = id.to_owned();
        let n = self.ids.len();
        let mut i: usize = 0;
        let mut found: Option<usize> = None;
        while i < n
            invariant
                i <= n,
                n == self.ids@.len(),
                *self == pre,
                match found {
                    Some(p) => p < i && self.ids@[p as int]@ == id@,
                    None => forall|p: int| 0 <= p < i ==> #[trigger] self.ids@[p]@ != id@,
                },
                key@ == id@,
            decreases n - i,
        {
            if found.is_none() && self.ids[i] == key {
                found = Some(i);
            }
            i = i + 1;
        }
        let ghost found_index = found;
        match found {
            Some(p) => {
                self.ids.remove(p);
            },
            None => {},
        }
        self.devices.remove(id);
        proof {
            match found_index {
                Some(p) => {
                    let pi = p as int;
                    assert forall|q: int| 0 <= q < self.ids@.len() implies self.ids@[q] == (if q
                        < pi {
                        pre.ids@[q]
                    } else {
                        pre.ids@[q + 1]
                    }) by {}
                    assert forall|a: int, b: int|
                        #![trigger self.ids@[a], self.ids@[b]]
                        0 <= a < b < self.ids@.len() implies self.ids@[a]@ != self.ids@[b]@ by {
                        let a0 = if a < pi {
                            a
                        } else {
                            a + 1
                        };
                        let b0 = if b < pi {
                            b
                        } else {
                            b + 1
                        };
                        assert(pre.ids@[a0]@ != pre.ids@[b0]@);
                    }
                    assert forall|i: int| 0 <= i < self.ids@.len() implies
                    self.devices@.contains_key(#[trigger] self.ids@[i]@) by {
                        if i < pi {
                            assert(pre.ids@[i]@ != pre.ids@[pi]@);
                        } else {
                            assert(pre.ids@[pi]@ != pre.ids@[i + 1]@);
                        }
                    }
                    assert forall|k: Seq<char>| self.devices@.contains_key(k) implies exists|
                        q: int,
                    |
                        0 <= q < self.ids@.len() && #[trigger] self.ids@[q]@ == k by {
                        let q0 = choose|q: int|
                            0 <= q < pre.ids@.len() && #[trigger] pre.ids@[q]@ == k;
                        if q0 < pi {
                            assert(self.ids@[q0]@ == k);
                        } else {
                            assert(q0 != pi);
                            assert(self.ids@[q0 - 1]@ == k);
                        }
                    }
                },
                None => {
                    assert(!pre@.contains_key(id@));
                    assert(pre@.remove(id@) =~= pre@);
                    assert forall|k: Seq<char>| self.devices@.contains_key(k) implies exists|
                        q: int,
                    |
                        0 <= q < self.ids@.len() && #[trigger] self.ids@[q]@ == k by {
                        let q0 = choose|q: int|
                            0 <= q < pre.ids@.len() && #[trigger] pre.ids@[q]@ == k;
                        assert(self.ids@[q0]@ == k);
                    }
                },
            }
        }
    }

    /// The live view, at an explicit time: exactly the registered devices
    /// whose stamp is younger than the presence timeout. Stale entries are
    /// reported absent but not evicted; eviction belongs to session timeout
    /// handling.
    pub fn get_nearby_devices_at(&self, now: i64) -> (r: Vec<DeviceInfo>)
        requires
            self.wf(),
            now >= 0,
        ensures
            live_roster(r@, self@, now as int),
    {
        let mut r: Vec<DeviceInfo> = Vec::new();
        let n = self.ids.len();
        let mut j: usize = 0;
        while j < n
            invariant
                j <= n,
                n == self.ids@.len(),
                self.wf(),
                now >= 0,
                forall|i: int|
                    #![trigger r@[i]]
                    0 <= i < r@.len() ==> self@.contains_key(r@[i].id@) && r@[i] == self@[r@[i].id@]
                        && is_live(now as int, r@[i].last_seen as int),
                forall|i: int|
                    #![trigger r@[i]]
                    0 <= i < r@.len() ==> exists|p: int|
                        0 <= p < j && #[trigger] self.ids@[p]@ == r@[i].id@,
                forall|p: int|
                    0 <= p < j && is_live(now as int, self@[#[trigger] self.ids@[p]@].last_seen as int)
                        ==> roster_contains(r@, self.ids@[p]@),
                forall|a: int, b: int|
                    #![trigger r@[a], r@[b]]
                    0 <= a < b < r@.len() ==> r@[a].id@ != r@[b].id@,
            decreases n - j,
        {
            let ghost r_pre = r@;
            match self.devices.get(self.ids[j].as_str()) {
                Some(d) => {
                    if now - d.last_seen < PRESENCE_TIMEOUT_MILLIS {
                        r.push(d.clone());
                    }
                },
                None => {},
            }
            proof {
                assert forall|a: int, b: int| #![trigger r@[a], r@[b]] 0 <= a < b < r@.len()
                    implies r@[a].id@ != r@[b].id@ by {
                    if b == r@.len() - 1 && r@.len() > r_pre.len() {
                        let pa = choose|p: int| 0 <= p < j && #[trigger] self.ids@[p]@ == r@[a].id@;
                        assert(self.ids@[pa]@ != self.ids@[j as int]@);
                    }
                }
                assert forall|p: int|
                    0 <= p < j + 1 && is_live(
                        now as int,
                        self@[#[trigger] self.ids@[p]@].last_seen as int,
                    ) implies roster_contains(r@, self.ids@[p]@) by {
                    if p < j {
                        assert(roster_contains(r_pre, self.ids@[p]@));
                        let i0 = choose|i: int|
                            0 <= i < r_pre.len() && #[trigger] r_pre[i].id@ == self.ids@[p]@;
                        assert(r@[i0].id@ == self.ids@[p]@);
                    } else {
                        assert(r@[r@.len() - 1].id@ == self.ids@[j as int]@);
                    }
                }
            }
            j = j + 1;
        }
        proof {
            assert forall|k: Seq<char>|
                #[trigger] self@.contains_key(k) && is_live(now as int, self@[k].last_seen as int)
                implies roster_contains(r@, k) by {
                let p = choose|p: int| 0 <= p < self.ids@.len() && #[trigger] self.ids@[p]@ == k;
                assert(roster_contains(r@, self.ids@[p]@));
            }
        }
        r
    }

    /// The live view as the session layer calls it, at the wall clock.
    pub fn get_nearby_devices(&self) -> (r: Vec<DeviceInfo>)
        requires
            self.wf(),
        ensures
            exists|t: i64| t >= 0 && live_roster(r@, self@, t as int),
    {
        let raw = now_millis();
        let now: i64 = if raw < 0 {
            0
        } else {
            raw
        };
        let r = self.get_nearby_devices_at(now);
        proof {
            assert(now >= 0 && live_roster(r@, self@, now as int));
        }
        r
    }
}

/// The staleness law: in any correct live roster, a registered device whose
/// stamp has aged past the presence timeout is absent, and one younger than
/// the timeout is present.
pub proof fn lemma_presence_staleness(
    r: Seq<DeviceInfo>,
    m: Map<Seq<char>, DeviceInfo>,
    now: int,
    k: Seq<char>,
)
    requires
        live_roster(r, m, now),
        m.contains_key(k),
    ensures
        now - m[k].last_seen >= PRESENCE_TIMEOUT_MILLIS as int ==> !roster_contains(r, k),
        now - m[k].last_seen < PRESENCE_TIMEOUT_MILLIS as int ==> roster_contains(r, k),
{
    if now - m[k].last_seen >= PRESENCE_TIMEOUT_MILLIS as int {
        if roster_contains(r, k) {
            let i = choose|i: int| 0 <= i < r.len() && #[trigger] r[i].id@ == k;
            assert(r[i] == m[k]);
            assert(false);
        }
    }
}

} // verus!
