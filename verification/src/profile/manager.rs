use vstd::prelude::*;

use crate::protocol::command::ProfilePayload;
use crate::text::str_eq;

verus! {

/// Most profiles the store keeps.
pub const MAX_PROFILES: usize = 10;

#[derive(Debug, Clone, Copy, PartialEq, Eq, Structural)]
pub enum ManagerError {
    Full,
    NotFound,
}

impl ManagerError {
    /// Human-readable description of the error.
    pub fn message(&self) -> (s: String)
        ensures
            s@ == error_text(*self),
    {
        match self {
            ManagerError::Full => String::from_str("profile storage full (max 10)"),
            ManagerError::NotFound => String::from_str("profile not found"),
        }
    }
}

/// Description of a store error.
pub open spec fn error_text(e: ManagerError) -> Seq<char> {
    match e {
        ManagerError::Full => "profile storage full (max 10)"@,
        ManagerError::NotFound => "profile not found"@,
    }
}

/// A stored profile and whether it changed since it was last persisted.
#[derive(Debug)]
pub struct ProfileEntry {
    pub payload: ProfilePayload,
    pub dirty: bool,
}

/// Abstract state of the store: entries in insertion order and the index of
/// the active one.
pub struct ManagerView {
    pub entries: Seq<ProfileEntry>,
    pub active: Option<int>,
}

/// Name of entry `i`.
pub open spec fn name_at(entries: Seq<ProfileEntry>, i: int) -> Seq<char> {
    entries[i].payload.name@
}

/// Index of the entry named `name`, if any.
pub open spec fn index_of(entries: Seq<ProfileEntry>, name: Seq<char>) -> Option<int> {
    if exists|i: int| 0 <= i < entries.len() && #[trigger] name_at(entries, i) == name {
        Some(choose|i: int| 0 <= i < entries.len() && #[trigger] name_at(entries, i) == name)
    } else {
        None
    }
}

/// No two entries share a name.
pub open spec fn names_distinct(entries: Seq<ProfileEntry>) -> bool {
    forall|i: int, j: int|
        0 <= i < entries.len() && 0 <= j < entries.len() && i != j ==> #[trigger] name_at(
            entries,
            i,
        ) != #[trigger] name_at(entries, j)
}

/// Store invariant: at most `MAX_PROFILES` entries, unique names, and an
/// active index (if any) that points at an entry.
pub open spec fn manager_wf(v: ManagerView) -> bool {
    &&& v.entries.len() <= MAX_PROFILES
    &&& names_distinct(v.entries)
    &&& (v.active matches Some(i) ==> 0 <= i < v.entries.len())
}

/// The profile stored under `name`, if any.
pub open spec fn lookup(v: ManagerView, name: Seq<char>) -> Option<ProfilePayload> {
    match index_of(v.entries, name) {
        Some(i) => Some(v.entries[i].payload),
        None => None,
    }
}

/// The active profile, if any.
pub open spec fn active_payload(v: ManagerView) -> Option<ProfilePayload> {
    match v.active {
        Some(i) => Some(v.entries[i].payload),
        None => None,
    }
}

/// Adding or replacing a profile. An existing entry of that name is replaced
/// in place (result `Ok(false)`); otherwise a new entry is appended (result
/// `Ok(true)`) unless the store is full. `dirty` is the new entry's flag.
pub open spec fn put_profile(v: ManagerView, payload: ProfilePayload, dirty: bool) -> (
    ManagerView,
    Result<bool, ManagerError>,
) {
    let entry = ProfileEntry { payload, dirty };
    match index_of(v.entries, payload.name@) {
        Some(i) => (ManagerView { entries: v.entries.update(i, entry), active: v.active }, Ok(false)),
        None => if v.entries.len() >= MAX_PROFILES {
            (v, Err(ManagerError::Full))
        } else {
            (ManagerView { entries: v.entries.push(entry), active: v.active }, Ok(true))
        },
    }
}

/// Making the profile named `name` active.
pub open spec fn activate(v: ManagerView, name: Seq<char>) -> (ManagerView, Result<
    (),
    ManagerError,
>) {
    match index_of(v.entries, name) {
        Some(i) => (ManagerView { entries: v.entries, active: Some(i) }, Ok(())),
        None => (v, Err(ManagerError::NotFound)),
    }
}

/// Removing the profile named `name`. The active index keeps pointing at
/// the same profile, or is cleared when that profile is the one removed.
pub open spec fn remove_profile(v: ManagerView, name: Seq<char>) -> (ManagerView, Result<
    (),
    ManagerError,
>) {
    match index_of(v.entries, name) {
        Some(i) => {
            let active = match v.active {
                Some(a) => if a == i {
                    None
                } else if a > i {
                    Some(a - 1)
                } else {
                    Some(a)
                },
                None => None,
            };
            (ManagerView { entries: v.entries.remove(i), active }, Ok(()))
        },
        None => (v, Err(ManagerError::NotFound)),
    }
}

/// Entries with their dirty flag cleared.
pub open spec fn entry_cleaned(e: ProfileEntry) -> ProfileEntry {
    ProfileEntry { payload: e.payload, dirty: false }
}

/// Payloads of the dirty entries, in store order.
pub open spec fn dirty_payloads(entries: Seq<ProfileEntry>) -> Seq<ProfilePayload>
    decreases entries.len(),
{
    if entries.len() == 0 {
        Seq::empty()
    } else {
        let rest = dirty_payloads(entries.drop_last());
        if entries.last().dirty {
            rest.push(entries.last().payload)
        } else {
            rest
        }
    }
}

/// In-memory profile store. Manages up to 10 profiles with dirty tracking.
/// File I/O (SPIFFS) is left to the firmware; this is pure logic.
pub struct ProfileManager {
    profiles: Vec<ProfileEntry>,
    active_index: Option<usize>,
}

impl View for ProfileManager {
    type V = ManagerView;

    closed spec fn view(&self) -> ManagerView {
        ManagerView {
            entries: self.profiles@,
            active: match self.active_index {
                Some(i) => Some(i as int),
                None => None,
            },
        }
    }
}

impl ProfileManager {
    pub open spec fn wf(&self) -> bool {
        manager_wf(self@)
    }

    pub fn new() -> (m: Self)
        ensures
            m.wf(),
            m@.entries == Seq::<ProfileEntry>::empty(),
            m@.active is None,
    {
        ProfileManager { profiles: Vec::new(), active_index: None }
    }

    fn find_index(&self, name: &str) -> (r: Option<usize>)
        requires
            self.wf(),
        ensures
            match r {
                Some(i) => index_of(self@.entries, name@) == Some(i as int),
                None => index_of(self@.entries, name@) is None,
            },
    {
        let mut i: usize = 0;
        while i < self.profiles.len()
            invariant
                self.wf(),
                0 <= i <= self.profiles@.len(),
                forall|k: int| 0 <= k < i ==> #[trigger] name_at(self@.entries, k) != name@,
            decreases self.profiles@.len() - i,
        {
            if str_eq(self.profiles[i].payload.name.as_str(), name) {
                assert(name_at(self@.entries, i as int) == name@);
                let ghost j = index_of(self@.entries, name@)->0;
                assert(0 <= j < self@.entries.len() && name_at(self@.entries, j) == name@);
                assert(j == i);
                return Some(i);
            }
            i = i + 1;
        }
        None
    }

    /// Add or update a profile. Returns true if a new profile was created.
    /// The stored entry is marked dirty.
    pub fn set_profile(&mut self, payload: ProfilePayload) -> (r: Result<bool, ManagerError>)
        requires
            old(self).wf(),
        ensures
            final(self).wf(),
            (final(self)@, r) == put_profile(old(self)@, payload, true),
    {
        self.put(payload, true)
    }

    fn put(&mut self, payload: ProfilePayload, dirty: bool) -> (r: Result<bool, ManagerError>)
        requires
            old(self).wf(),
        ensures
            final(self).wf(),
            (final(self)@, r) == put_profile(old(self)@, payload, dirty),
    {
        let ghost name = payload.name@;
        match self.find_index(payload.name.as_str()) {
            Some(idx) => {
                self.profiles.set(idx, ProfileEntry { payload, dirty });
                proof {
                    lemma_names_after_update(old(self)@.entries, idx as int, self@.entries);
                }
                Ok(false)
            },
            None => {
                if self.profiles.len() >= MAX_PROFILES {
                    return Err(ManagerError::Full);
                }
                self.profiles.push(ProfileEntry { payload, dirty });
                proof {
                    assert forall|i: int, j: int|
                        0 <= i < self@.entries.len() && 0 <= j < self@.entries.len() && i != j
                            implies #[trigger] name_at(self@.entries, i) != #[trigger] name_at(
                        self@.entries,
                        j,
                    ) by {
                        let n = old(self)@.entries.len() as int;
                        if i == n {
                            assert(name_at(old(self)@.entries, j) != name);
                        } else if j == n {
                            assert(name_at(old(self)@.entries, i) != name);
                        } else {
                            assert(name_at(old(self)@.entries, i) != name_at(
                                old(self)@.entries,
                                j,
                            ));
                        }
                    }
                }
                Ok(true)
            },
        }
    }

    /// Get a profile by name.
    pub fn get_profile(&self, name: &str) -> (r: Option<&ProfilePayload>)
        requires
            self.wf(),
        ensures
            r is Some <==> lookup(self@, name@) is Some,
            r matches Some(p) ==> *p == lookup(self@, name@)->0,
    {
        match self.find_index(name) {
            Some(i) => Some(&self.profiles[i].payload),
            None => None,
        }
    }

    /// Set the active profile by name. Returns error if not found.
    pub fn set_active(&mut self, name: &str) -> (r: Result<(), ManagerError>)
        requires
            old(self).wf(),
        ensures
            final(self).wf(),
            (final(self)@, r) == activate(old(self)@, name@),
    {
        match self.find_index(name) {
            Some(idx) => {
                self.active_index = Some(idx);
                Ok(())
            },
            None => Err(ManagerError::NotFound),
        }
    }

    /// Get the currently active profile.
    pub fn active_profile(&self) -> (r: Option<&ProfilePayload>)
        requires
            self.wf(),
        ensures
            r is Some <==> active_payload(self@) is Some,
            r matches Some(p) ==> *p == active_payload(self@)->0,
    {
        match self.active_index {
            Some(i) => Some(&self.profiles[i].payload),
            None => None,
        }
    }

    /// Get the name of the active profile.
    pub fn active_name(&self) -> (r: Option<&str>)
        requires
            self.wf(),
        ensures
            r is Some <==> active_payload(self@) is Some,
            r matches Some(s) ==> s@ == active_payload(self@)->0.name@,
    {
        match self.active_index {
            Some(i) => Some(self.profiles[i].payload.name.as_str()),
            None => None,
        }
    }

    /// List all profile names, in store order.
    pub fn list_names(&self) -> (names: Vec<String>)
        requires
            self.wf(),
        ensures
            names@.len() == self@.entries.len(),
            forall|i: int|
                0 <= i < names@.len() ==> #[trigger] names@[i]@ == name_at(self@.entries, i),
    {
        let mut names: Vec<String> = Vec::new();
        let mut i: usize = 0;
        while i < self.profiles.len()
            invariant
                0 <= i <= self.profiles@.len(),
                names@.len() == i,
                forall|k: int| 0 <= k < i ==> #[trigger] names@[k]@ == name_at(self@.entries, k),
            decreases self.profiles@.len() - i,
        {
            names.push(self.profiles[i].payload.name.clone());
            i = i + 1;
        }
        names
    }

    /// Remove a profile by name.
    pub fn remove(&mut self, name: &str) -> (r: Result<(), ManagerError>)
        requires
            old(self).wf(),
        ensures
            final(self).wf(),
            (final(self)@, r) == remove_profile(old(self)@, name@),
    {
        match self.find_index(name) {
            Some(idx) => {
                self.profiles.remove(idx);
                let new_active = match self.active_index {
                    Some(i) => if i == idx {
                        None
                    } else if i > idx {
                        Some(i - 1)
                    } else {
                        Some(i)
                    },
                    None => None,
                };
                self.active_index = new_active;
                proof {
                    let o = old(self)@.entries;
                    let n = self@.entries;
                    assert(n =~= o.remove(idx as int));
                    assert forall|i: int, j: int|
                        0 <= i < n.len() && 0 <= j < n.len() && i != j implies #[trigger] name_at(
                        n,
                        i,
                    ) != #[trigger] name_at(n, j) by {
                        let oi = if i < idx {
                            i
                        } else {
                            i + 1
                        };
                        let oj = if j < idx {
                            j
                        } else {
                            j + 1
                        };
                        assert(name_at(n, i) == name_at(o, oi));
                        assert(name_at(n, j) == name_at(o, oj));
                        assert(name_at(o, oi) != name_at(o, oj));
                    }
                }
                Ok(())
            },
            None => Err(ManagerError::NotFound),
        }
    }

    /// Get all profiles that have been modified since last save.
    pub fn dirty_profiles(&self) -> (r: Vec<&ProfilePayload>)
        requires
            self.wf(),
        ensures
            r@.len() == dirty_payloads(self@.entries).len(),
            forall|i: int| 0 <= i < r@.len() ==> *#[trigger] r@[i] == dirty_payloads(self@.entries)[i],
    {
        let mut r: Vec<&ProfilePayload> = Vec::new();
        let mut i: usize = 0;
        while i < self.profiles.len()
            invariant
                0 <= i <= self.profiles@.len(),
                r@.len() == dirty_payloads(self@.entries.take(i as int)).len(),
                forall|k: int|
                    0 <= k < r@.len() ==> *#[trigger] r@[k] == dirty_payloads(
                        self@.entries.take(i as int),
                    )[k],
            decreases self.profiles@.len() - i,
        {
            assert(self@.entries.take(i + 1).drop_last() =~= self@.entries.take(i as int));
            if self.profiles[i].dirty {
                r.push(&self.profiles[i].payload);
            }
            i = i + 1;
        }
        assert(self@.entries.take(i as int) =~= self@.entries);
        r
    }

    /// Mark all profiles as clean (after saving).
    pub fn mark_all_clean(&mut self)
        requires
            old(self).wf(),
        ensures
            final(self).wf(),
            final(self)@.active == old(self)@.active,
            final(self)@.entries == old(self)@.entries.map_values(|e: ProfileEntry| entry_cleaned(e)),
    {
        let ghost orig = self@.entries;
        let mut i: usize = 0;
        while i < self.profiles.len()
            invariant
                0 <= i <= self.profiles@.len(),
                self.profiles@.len() == orig.len(),
                self@.active == old(self)@.active,
                orig == old(self)@.entries,
                forall|k: int| 0 <= k < i ==> #[trigger] self@.entries[k] == entry_cleaned(orig[k]),
                forall|k: int| i <= k < orig.len() ==> #[trigger] self@.entries[k] == orig[k],
            decreases self.profiles@.len() - i,
        {
            let ghost prev = self@.entries;
            let entry = self.profiles.remove(i);
            self.profiles.insert(i, ProfileEntry { payload: entry.payload, dirty: false });
            assert(self@.entries =~= prev.update(i as int, entry_cleaned(prev[i as int])));
            i = i + 1;
        }
        proof {
            assert(self@.entries =~= orig.map_values(|e: ProfileEntry| entry_cleaned(e)));
            assert forall|a: int, b: int|
                0 <= a < self@.entries.len() && 0 <= b < self@.entries.len() && a != b
                    implies #[trigger] name_at(self@.entries, a) != #[trigger] name_at(
                self@.entries,
                b,
            ) by {
                assert(name_at(self@.entries, a) == name_at(orig, a));
                assert(name_at(self@.entries, b) == name_at(orig, b));
            }
        }
    }

    /// Mark a specific profile as clean.
    pub fn mark_clean(&mut self, name: &str)
        requires
            old(self).wf(),
        ensures
            final(self).wf(),
            final(self)@.active == old(self)@.active,
            final(self)@.entries == (match index_of(old(self)@.entries, name@) {
                Some(i) => old(self)@.entries.update(i, entry_cleaned(old(self)@.entries[i])),
                None => old(self)@.entries,
            }),
    {
        if let Some(idx) = self.find_index(name) {
            let entry = self.profiles.remove(idx);
            self.profiles.insert(idx, ProfileEntry { payload: entry.payload, dirty: false });
            proof {
                assert(self@.entries =~= old(self)@.entries.update(
                    idx as int,
                    entry_cleaned(old(self)@.entries[idx as int]),
                ));
                lemma_names_after_update(old(self)@.entries, idx as int, self@.entries);
            }
        }
    }

    /// Load a profile from external storage (e.g. SPIFFS).
    /// Marks it as clean since it just came from disk.
    pub fn load_from_storage(&mut self, payload: ProfilePayload) -> (r: Result<(), ManagerError>)
        requires
            old(self).wf(),
        ensures
            final(self).wf(),
            final(self)@ == put_profile(old(self)@, payload, false).0,
            r is Ok <==> put_profile(old(self)@, payload, false).1 is Ok,
            r is Err ==> r == Err::<(), ManagerError>(ManagerError::Full),
    {
        match self.put(payload, false) {
            Ok(_) => Ok(()),
            Err(e) => Err(e),
        }
    }

    /// Number of stored profiles.
    pub fn count(&self) -> (n: usize)
        ensures
            n == self@.entries.len(),
    {
        self.profiles.len()
    }
}

/// Replacing an entry by one of the same name keeps the names distinct.
proof fn lemma_names_after_update(o: Seq<ProfileEntry>, idx: int, n: Seq<ProfileEntry>)
    requires
        names_distinct(o),
        0 <= idx < o.len(),
        n.len() == o.len(),
        name_at(n, idx) == name_at(o, idx),
        forall|k: int| 0 <= k < o.len() && k != idx ==> n[k] == o[k],
    ensures
        names_distinct(n),
{
    assert forall|i: int, j: int|
        0 <= i < n.len() && 0 <= j < n.len() && i != j implies #[trigger] name_at(n, i)
        != #[trigger] name_at(n, j) by {
        assert(name_at(n, i) == name_at(o, i));
        assert(name_at(n, j) == name_at(o, j));
    }
}

/// In a store with distinct names, the entry at `i` is the one its name finds.
proof fn lemma_index_of_at(entries: Seq<ProfileEntry>, i: int)
    requires
        names_distinct(entries),
        0 <= i < entries.len(),
    ensures
        index_of(entries, name_at(entries, i)) == Some(i),
{
    let name = name_at(entries, i);
    assert(exists|k: int| 0 <= k < entries.len() && #[trigger] name_at(entries, k) == name);
    let j = index_of(entries, name)->0;
    assert(0 <= j < entries.len() && name_at(entries, j) == name);
}

/// A profile that was stored is what a lookup of its name gives back, its
/// entry carrying the requested dirty flag (set for `set_profile`, clear for
/// `load_from_storage`); other names are unaffected.
pub proof fn law_put_then_lookup(v: ManagerView, payload: ProfilePayload, dirty: bool, other: Seq<char>)
    requires
        manager_wf(v),
        put_profile(v, payload, dirty).1 is Ok,
    ensures
        lookup(put_profile(v, payload, dirty).0, payload.name@) == Some(payload),
        index_of(put_profile(v, payload, dirty).0.entries, payload.name@) matches Some(i)
            && put_profile(v, payload, dirty).0.entries[i] == (ProfileEntry { payload, dirty }),
        other != payload.name@ ==> lookup(put_profile(v, payload, dirty).0, other) == lookup(v, other),
{
    let n = put_profile(v, payload, dirty).0.entries;
    let entry = ProfileEntry { payload, dirty };
    let pos = match index_of(v.entries, payload.name@) {
        Some(i) => i,
        None => v.entries.len() as int,
    };
    assert(name_at(n, pos) == payload.name@);
    assert(forall|k: int| 0 <= k < n.len() && k != pos ==> #[trigger] n[k] == v.entries[k]);
    assert(names_distinct(n)) by {
        assert forall|i: int, j: int|
            0 <= i < n.len() && 0 <= j < n.len() && i != j implies #[trigger] name_at(n, i)
            != #[trigger] name_at(n, j) by {
            if i == pos {
                if index_of(v.entries, payload.name@) is None {
                    assert(name_at(v.entries, j) != payload.name@);
                } else {
                    assert(name_at(v.entries, pos) == payload.name@);
                    assert(name_at(v.entries, j) != name_at(v.entries, pos));
                }
            } else if j == pos {
                if index_of(v.entries, payload.name@) is None {
                    assert(name_at(v.entries, i) != payload.name@);
                } else {
                    assert(name_at(v.entries, pos) == payload.name@);
                    assert(name_at(v.entries, i) != name_at(v.entries, pos));
                }
            } else {
                assert(name_at(v.entries, i) != name_at(v.entries, j));
            }
        }
    }
    lemma_index_of_at(n, pos);
    if other != payload.name@ {
        match index_of(v.entries, other) {
            Some(i) => {
                assert(0 <= i < v.entries.len() && name_at(v.entries, i) == other);
                assert(i != pos);
                assert(n[i] == v.entries[i]);
                lemma_index_of_at(n, i);
            },
            None => {
                assert forall|k: int| 0 <= k < n.len() implies #[trigger] name_at(n, k) != other by {
                    if k != pos {
                        assert(n[k] == v.entries[k]);
                        assert(name_at(v.entries, k) != other);
                    }
                }
            },
        }
    }
}

/// Storing fails only for a new name when the store already holds
/// `MAX_PROFILES` profiles, and then nothing changes.
pub proof fn law_put_full(v: ManagerView, payload: ProfilePayload, dirty: bool)
    ensures
        (put_profile(v, payload, dirty).1 is Err) <==> (lookup(v, payload.name@) is None
            && v.entries.len() >= MAX_PROFILES),
        put_profile(v, payload, dirty).1 is Err ==> put_profile(v, payload, dirty).0 == v,
{
}

/// After a successful removal the name is gone, and a removal fails exactly
/// when the name is unknown.
pub proof fn law_remove_then_lookup(v: ManagerView, name: Seq<char>)
    requires
        manager_wf(v),
    ensures
        (remove_profile(v, name).1 is Err) <==> lookup(v, name) is None,
        lookup(remove_profile(v, name).0, name) is None,
{
    if let Some(i) = index_of(v.entries, name) {
        let n = v.entries.remove(i);
        assert(0 <= i < v.entries.len() && name_at(v.entries, i) == name);
        assert forall|k: int| 0 <= k < n.len() implies #[trigger] name_at(n, k) != name by {
            let ok = if k < i {
                k
            } else {
                k + 1
            };
            assert(name_at(n, k) == name_at(v.entries, ok));
            assert(name_at(v.entries, ok) != name_at(v.entries, i));
        }
    }
}

/// Removing some other profile leaves the active profile as it was.
pub proof fn law_remove_keeps_active(v: ManagerView, name: Seq<char>)
    requires
        manager_wf(v),
        active_payload(v) matches Some(p) && p.name@ != name,
    ensures
        active_payload(remove_profile(v, name).0) == active_payload(v),
{
    if let Some(i) = index_of(v.entries, name) {
        assert(0 <= i < v.entries.len() && name_at(v.entries, i) == name);
        let a = v.active->0;
        assert(a != i);
    }
}

/// Activating a stored profile makes it the active one.
pub proof fn law_activate_then_active(v: ManagerView, name: Seq<char>)
    requires
        manager_wf(v),
    ensures
        (activate(v, name).1 is Ok) <==> lookup(v, name) is Some,
        activate(v, name).1 is Ok ==> active_payload(activate(v, name).0) == lookup(v, name),
{
}

/// After marking everything clean nothing is left to persist.
pub proof fn law_all_clean_nothing_dirty(entries: Seq<ProfileEntry>)
    ensures
        dirty_payloads(entries.map_values(|e: ProfileEntry| entry_cleaned(e))) == Seq::<
            ProfilePayload,
        >::empty(),
    decreases entries.len(),
{
    let m = entries.map_values(|e: ProfileEntry| entry_cleaned(e));
    if entries.len() > 0 {
        assert(m.drop_last() =~= entries.drop_last().map_values(|e: ProfileEntry| entry_cleaned(e)));
        law_all_clean_nothing_dirty(entries.drop_last());
    }
}


/// Removing the active profile leaves no profile active.
pub proof fn law_remove_active_clears_active(v: ManagerView, name: Seq<char>)
    requires
        manager_wf(v),
        active_payload(v) matches Some(p) && p.name@ == name,
    ensures
        remove_profile(v, name).1 is Ok,
        active_payload(remove_profile(v, name).0) is None,
{
    let a = v.active->0;
    assert(name_at(v.entries, a) == name);
    lemma_index_of_at(v.entries, a);
}
} // verus!
