//! The BLE profile table: one bond per profile slot, kept in step with the
//! BLE stack and persisted on every change.
//!
//! A slot's entry is only replaced after the stack accepted the new bond,
//! so persisted state never claims an unusable profile; a cleared slot stays
//! in the table marked removed.
use vstd::prelude::*;

verus! {

/// A peer's identity: its address (kind and bytes) and, for a resolvable
/// private address, its identity resolving key.
#[derive(Clone, Copy, Debug, PartialEq, Eq)]
pub struct PeerIdentity {
    pub addr_kind: u8,
    pub addr: [u8; 6],
    pub irk: Option<u128>,
}

/// The bonding information of one peer.
#[derive(Clone, Copy, Debug, PartialEq, Eq)]
pub struct BondRecord {
    pub identity: PeerIdentity,
    pub ltk: u128,
    pub security_level: u8,
    pub is_bonded: bool,
}

/// One profile slot's bond and the peer's attribute-table state.
#[derive(Debug)]
pub struct ProfileInfo {
    pub slot_num: u8,
    pub removed: bool,
    pub info: BondRecord,
    pub cccd_table: Vec<u8>,
}

/// A profile's contents as values.
pub struct ProfileView {
    pub slot_num: u8,
    pub removed: bool,
    pub info: BondRecord,
    pub cccd_table: Seq<u8>,
}

impl ProfileInfo {
    pub open spec fn view(&self) -> ProfileView {
        ProfileView { slot_num: self.slot_num, removed: self.removed, info: self.info, cccd_table: self.cccd_table@ }
    }

    /// A copy of the profile.
    pub fn copy(&self) -> (r: Self)
        ensures
            r.view() == self.view(),
    {
        ProfileInfo {
            slot_num: self.slot_num,
            removed: self.removed,
            info: self.info,
            cccd_table: copy_bytes(&self.cccd_table),
        }
    }
}

fn copy_bytes(v: &Vec<u8>) -> (r: Vec<u8>)
    ensures
        r@ == v@,
{
    let mut out: Vec<u8> = Vec::new();
    let mut i: usize = 0;
    while i < v.len()
        invariant
            i <= v@.len(),
            out@ == v@.take(i as int),
        decreases v@.len() - i,
    {
        out.push(v[i]);
        assert(out@ =~= v@.take(i + 1));
        i = i + 1;
    }
    assert(v@.take(i as int) =~= v@);
    out
}

fn bytes_eq(a: &Vec<u8>, b: &Vec<u8>) -> (r: bool)
    ensures
        r == (a@ == b@),
{
    if a.len() != b.len() {
        return false;
    }
    let mut i: usize = 0;
    while i < a.len()
        invariant
            a@.len() == b@.len(),
            i <= a@.len(),
            forall|j: int| 0 <= j < i ==> a@[j] == b@[j],
        decreases a@.len() - i,
    {
        if a[i] != b[i] {
            return false;
        }
        i = i + 1;
    }
    assert(a@ =~= b@);
    true
}

/// Whether two bond records are the same.
pub fn same_bond(a: &BondRecord, b: &BondRecord) -> (r: bool)
    ensures
        r == (*a == *b),
{
    broadcast use vstd::array::group_array_axioms;
    let irk_same = match (a.identity.irk, b.identity.irk) {
        (Some(x), Some(y)) => x == y,
        (None, None) => true,
        _ => false,
    };
    let fields_same = a.ltk == b.ltk && a.security_level == b.security_level && a.is_bonded == b.is_bonded
        && a.identity.addr_kind == b.identity.addr_kind && irk_same;
    let mut addr_same = true;
    let mut i: usize = 0;
    while i < 6
        invariant
            i <= 6,
            addr_same <==> forall|j: int| 0 <= j < i ==> a.identity.addr@[j] == b.identity.addr@[j],
        decreases 6 - i,
    {
        if a.identity.addr[i] != b.identity.addr[i] {
            addr_same = false;
        }
        i = i + 1;
    }
    assert(addr_same <==> a.identity.addr =~= b.identity.addr);
    fields_same && addr_same
}

/// The first entry for `slot` (removed or not).
pub open spec fn slot_index(entries: Seq<ProfileView>, slot: u8, r: Option<usize>) -> bool {
    match r {
        Some(i) => i < entries.len() && entries[i as int].slot_num == slot
            && forall|j: int| 0 <= j < i ==> entries[j].slot_num != slot,
        None => forall|j: int| 0 <= j < entries.len() ==> entries[j].slot_num != slot,
    }
}

/// The first live (not removed) entry for `slot`.
pub open spec fn live_index(entries: Seq<ProfileView>, slot: u8, r: Option<usize>) -> bool {
    match r {
        Some(i) => i < entries.len() && entries[i as int].slot_num == slot && !entries[i as int].removed
            && forall|j: int| 0 <= j < i ==> !(entries[j].slot_num == slot && !entries[j].removed),
        None => forall|j: int| 0 <= j < entries.len() ==> !(entries[j].slot_num == slot && !entries[j].removed),
    }
}

/// What committing an accepted bond did to the table.
pub enum AddOutcome {
    /// The slot's entry was replaced; the old bond is handed back so its
    /// identity can be dropped from the stack if it differs.
    Replaced(BondRecord),
    /// A new entry was added.
    Pushed,
    /// No room for a new slot: the caller rolls the stack back.
    Full,
}

/// What a CCCD-table update did.
pub enum CccdUpdate {
    /// No entry for the slot.
    NotFound,
    /// The table is already stored.
    Unchanged,
    /// The entry changed; the copy is to be persisted.
    Updated(ProfileInfo),
}

/// The bonded devices, at most `capacity` entries.
pub struct BondTable {
    entries: Vec<ProfileInfo>,
    capacity: usize,
}

impl BondTable {
    pub closed spec fn spec_entries(&self) -> Seq<ProfileView> {
        self.entries@.map_values(|p: ProfileInfo| p.view())
    }

    pub closed spec fn spec_capacity(&self) -> usize {
        self.capacity
    }

    pub closed spec fn wf(&self) -> bool {
        self.entries@.len() <= self.capacity
    }

    /// An empty table of `capacity` profiles.
    pub fn new(capacity: usize) -> (r: Self)
        ensures
            r.wf(),
            r.spec_entries() == Seq::<ProfileView>::empty(),
            r.spec_capacity() == capacity,
    {
        let r = BondTable { entries: Vec::new(), capacity };
        assert(r.spec_entries() =~= Seq::<ProfileView>::empty());
        r
    }

    fn find_slot(&self, slot: u8) -> (r: Option<usize>)
        ensures
            slot_index(self.spec_entries(), slot, r),
    {
        let mut i: usize = 0;
        while i < self.entries.len()
            invariant
                i <= self.entries@.len(),
                forall|j: int| 0 <= j < i ==> self.spec_entries()[j].slot_num != slot,
            decreases self.entries@.len() - i,
        {
            if self.entries[i].slot_num == slot {
                return Some(i);
            }
            i = i + 1;
        }
        None
    }

    fn find_live(&self, slot: u8) -> (r: Option<usize>)
        ensures
            live_index(self.spec_entries(), slot, r),
    {
        let mut i: usize = 0;
        while i < self.entries.len()
            invariant
                i <= self.entries@.len(),
                forall|j: int| 0 <= j < i ==> !(self.spec_entries()[j].slot_num == slot && !self.spec_entries()[j].removed),
            decreases self.entries@.len() - i,
        {
            if self.entries[i].slot_num == slot && !self.entries[i].removed {
                return Some(i);
            }
            i = i + 1;
        }
        None
    }

    /// Fill the table from storage: every stored profile not marked removed,
    /// in order, as far as there is room.
    pub fn load(&mut self, stored: &Vec<ProfileInfo>)
        requires
            old(self).wf(),
        ensures
            final(self).wf(),
            final(self).spec_capacity() == old(self).spec_capacity(),
            final(self).spec_entries() == keep_live(
                stored@.map_values(|p: ProfileInfo| p.view()),
                old(self).spec_capacity() as nat,
            ),
    {
        let ghost sv = stored@.map_values(|p: ProfileInfo| p.view());
        self.entries = Vec::new();
        proof {
            assert(self.spec_entries() =~= Seq::<ProfileView>::empty());
            assert(sv.take(0) =~= Seq::<ProfileView>::empty());
        }
        let mut i: usize = 0;
        while i < stored.len()
            invariant
                self.capacity == old(self).spec_capacity(),
                sv == stored@.map_values(|p: ProfileInfo| p.view()),
                i <= stored@.len(),
                self.entries@.len() <= self.capacity,
                self.spec_entries() == keep_live(sv.take(i as int), self.capacity as nat),
            decreases stored@.len() - i,
        {
            assert(sv.take(i + 1).drop_last() =~= sv.take(i as int));
            assert(sv.take(i + 1).last() == stored@[i as int].view());
            if !stored[i].removed && self.entries.len() < self.capacity {
                let p = stored[i].copy();
                let ghost before = self.spec_entries();
                self.entries.push(p);
                assert(self.spec_entries() =~= before.push(stored@[i as int].view()));
            }
            i = i + 1;
        }
        assert(sv.take(i as int) =~= sv);
    }

    /// A copy of the live bond of `slot`, if any.
    pub fn bond_info(&self, slot: u8) -> (r: Option<ProfileInfo>)
        ensures
            exists|idx: Option<usize>| {
                &&& #[trigger] live_index(self.spec_entries(), slot, idx)
                &&& match idx {
                    Some(i) => r matches Some(p) && p.view() == self.spec_entries()[i as int],
                    None => r is None,
                }
            },
    {
        let idx = self.find_live(slot);
        match idx {
            Some(i) => {
                let p = self.entries[i].copy();
                assert(self.spec_entries()[i as int] == self.entries@[i as int].view());
                Some(p)
            },
            None => None,
        }
    }

    /// The slots of the live bonds, in table order.
    pub fn bonded_slots(&self) -> (r: Vec<u8>)
        ensures
            r@ == live_slots(self.spec_entries()),
    {
        let ghost e = self.spec_entries();
        let mut out: Vec<u8> = Vec::new();
        let mut i: usize = 0;
        proof {
            assert(e.take(0) =~= Seq::<ProfileView>::empty());
        }
        while i < self.entries.len()
            invariant
                e == self.spec_entries(),
                i <= e.len(),
                out@ == live_slots(e.take(i as int)),
            decreases e.len() - i,
        {
            assert(e.take(i + 1).drop_last() =~= e.take(i as int));
            assert(e.take(i + 1).last() == e[i as int]);
            assert(e[i as int] == self.entries@[i as int].view());
            if !self.entries[i].removed {
                out.push(self.entries[i].slot_num);
            }
            i = i + 1;
        }
        assert(e.take(i as int) =~= e);
        out
    }

    /// Whether an incoming bond must go to the stack: not when the slot's
    /// live entry already holds the same bond and attribute table.
    pub fn needs_update(&self, info: &ProfileInfo) -> (r: bool)
        ensures
            exists|idx: Option<usize>| {
                &&& #[trigger] slot_index(self.spec_entries(), info.slot_num, idx)
                &&& r == !(idx matches Some(i) && !self.spec_entries()[i as int].removed
                    && self.spec_entries()[i as int].info == info.info
                    && self.spec_entries()[i as int].cccd_table == info.cccd_table@)
            },
    {
        match self.find_slot(info.slot_num) {
            Some(i) => {
                let e = &self.entries[i];
                assert(self.spec_entries()[i as int] == e.view());
                !(!e.removed && same_bond(&e.info, &info.info) && bytes_eq(&e.cccd_table, &info.cccd_table))
            },
            None => true,
        }
    }

    /// Record a bond the stack accepted (as live): it replaces the slot's
    /// entry, or is added when there is room.
    pub fn commit(&mut self, info: ProfileInfo) -> (r: AddOutcome)
        requires
            old(self).wf(),
        ensures
            final(self).wf(),
            final(self).spec_capacity() == old(self).spec_capacity(),
            exists|idx: Option<usize>| {
                &&& #[trigger] slot_index(old(self).spec_entries(), info.slot_num, idx)
                &&& match idx {
                    Some(i) => r matches AddOutcome::Replaced(old_bond) && old_bond == old(self).spec_entries()[i as int].info
                        && final(self).spec_entries() == old(self).spec_entries().update(
                        i as int,
                        ProfileView { removed: false, ..info.view() },
                    ),
                    None => if old(self).spec_entries().len() < old(self).spec_capacity() {
                        r is Pushed && final(self).spec_entries() == old(self).spec_entries().push(
                            ProfileView { removed: false, ..info.view() },
                        )
                    } else {
                        r is Full && final(self).spec_entries() == old(self).spec_entries()
                    },
                }
            },
    {
        let mut info = info;
        info.removed = false;
        let ghost live = info.view();
        let idx = self.find_slot(info.slot_num);
        match idx {
            Some(i) => {
                let old_bond = self.entries[i].info;
                let ghost before = self.spec_entries();
                self.entries.set(i, info);
                assert(self.spec_entries() =~= before.update(i as int, live));
                AddOutcome::Replaced(old_bond)
            },
            None => {
                if self.entries.len() < self.capacity {
                    let ghost before = self.spec_entries();
                    self.entries.push(info);
                    assert(self.spec_entries() =~= before.push(live));
                    AddOutcome::Pushed
                } else {
                    AddOutcome::Full
                }
            },
        }
    }

    /// Store a new attribute table for `slot`'s entry.
    pub fn update_cccd_table(&mut self, slot: u8, table: Vec<u8>) -> (r: CccdUpdate)
        requires
            old(self).wf(),
        ensures
            final(self).wf(),
            final(self).spec_capacity() == old(self).spec_capacity(),
            exists|idx: Option<usize>| {
                &&& #[trigger] slot_index(old(self).spec_entries(), slot, idx)
                &&& match idx {
                    None => r is NotFound && final(self).spec_entries() == old(self).spec_entries(),
                    Some(i) => if old(self).spec_entries()[i as int].cccd_table == table@ {
                        r is Unchanged && final(self).spec_entries() == old(self).spec_entries()
                    } else {
                        let updated = ProfileView { cccd_table: table@, ..old(self).spec_entries()[i as int] };
                        &&& final(self).spec_entries() == old(self).spec_entries().update(i as int, updated)
                        &&& r matches CccdUpdate::Updated(p) && p.view() == updated
                    },
                }
            },
    {
        let idx = self.find_slot(slot);
        match idx {
            None => CccdUpdate::NotFound,
            Some(i) => {
                assert(self.spec_entries()[i as int] == self.entries@[i as int].view());
                if bytes_eq(&self.entries[i].cccd_table, &table) {
                    return CccdUpdate::Unchanged;
                }
                let ghost before = self.spec_entries();
                let mut entry = self.entries[i].copy();
                entry.cccd_table = table;
                let ghost updated = entry.view();
                let saved = entry.copy();
                self.entries.set(i, entry);
                assert(self.spec_entries() =~= before.update(i as int, updated));
                CccdUpdate::Updated(saved)
            },
        }
    }

    /// Mark `slot`'s live bond removed; returns its identity so the stack can
    /// forget it.
    pub fn clear_bond(&mut self, slot: u8) -> (r: Option<PeerIdentity>)
        requires
            old(self).wf(),
        ensures
            final(self).wf(),
            final(self).spec_capacity() == old(self).spec_capacity(),
            exists|idx: Option<usize>| {
                &&& #[trigger] live_index(old(self).spec_entries(), slot, idx)
                &&& match idx {
                    None => r is None && final(self).spec_entries() == old(self).spec_entries(),
                    Some(i) => r == Some(old(self).spec_entries()[i as int].info.identity)
                        && final(self).spec_entries() == old(self).spec_entries().update(
                        i as int,
                        ProfileView { removed: true, ..old(self).spec_entries()[i as int] },
                    ),
                }
            },
    {
        let idx = self.find_live(slot);
        match idx {
            None => None,
            Some(i) => {
                let ghost before = self.spec_entries();
                let mut entry = self.entries[i].copy();
                let identity = entry.info.identity;
                entry.removed = true;
                let ghost updated = entry.view();
                self.entries.set(i, entry);
                assert(self.spec_entries() =~= before.update(i as int, updated));
                Some(identity)
            },
        }
    }
}

/// What a commit that found room leaves behind reads back: the slot's first
/// live entry is then the committed bond, marked live.
pub proof fn lemma_commit_reads_back(
    before: Seq<ProfileView>,
    after: Seq<ProfileView>,
    info: ProfileView,
    idx: Option<usize>,
)
    requires
        before.len() < usize::MAX,
        slot_index(before, info.slot_num, idx),
        match idx {
            Some(i) => after == before.update(i as int, ProfileView { removed: false, ..info }),
            None => after == before.push(ProfileView { removed: false, ..info }),
        },
    ensures
        exists|j: Option<usize>| #[trigger] live_index(after, info.slot_num, j)
            && (j matches Some(k) && after[k as int] == ProfileView { removed: false, ..info }),
{
    match idx {
        Some(i) => {
            assert(live_index(after, info.slot_num, Some(i)));
        },
        None => {
            let k = before.len() as usize;
            assert(live_index(after, info.slot_num, Some(k)));
        },
    }
}

/// The active profile restored at startup: a stored one inside the
/// configured profiles, else profile 0.
pub fn active_profile_from_storage(stored: Option<u8>, num_profiles: usize) -> (r: u8)
    ensures
        r == match stored {
            Some(p) => if (p as usize) < num_profiles { p } else { 0 },
            None => 0,
        },
{
    match stored {
        Some(p) => if (p as usize) < num_profiles { p } else { 0 },
        None => 0,
    }
}

/// An update for `slot` tagged `generation` is current only while the slot
/// is still at that generation; stale updates are ignored.
pub fn is_current_generation(slot_generations: &[u32], slot: u8, generation: u32) -> (r: bool)
    ensures
        r == ((slot as int) < slot_generations@.len() && slot_generations@[slot as int] == generation),
{
    (slot as usize) < slot_generations.len() && slot_generations[slot as usize] == generation
}

/// The slots of the live entries, in order.
pub open spec fn live_slots(e: Seq<ProfileView>) -> Seq<u8>
    decreases e.len(),
{
    if e.len() == 0 {
        Seq::empty()
    } else if !e.last().removed {
        live_slots(e.drop_last()).push(e.last().slot_num)
    } else {
        live_slots(e.drop_last())
    }
}

/// The live profiles of `stored`, in order, at most `cap` of them.
pub open spec fn keep_live(stored: Seq<ProfileView>, cap: nat) -> Seq<ProfileView>
    decreases stored.len(),
{
    if stored.len() == 0 {
        Seq::empty()
    } else {
        let prefix = keep_live(stored.drop_last(), cap);
        if !stored.last().removed && prefix.len() < cap {
            prefix.push(stored.last())
        } else {
            prefix
        }
    }
}

} // verus!
