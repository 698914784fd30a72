//! The session registry: which session is active, what is cached for each session,
//! and the result slot.
//!
//! The registry is plain state. It is meant to sit behind one lock, so that each
//! operation below happens as a whole.

use crate::model::{PollView, RegistryModel, ResultView, SessionView};
use crate::options::{
    text_view, ContextMenuOptions, MenuRegion, MenuRegions, SessionId, NO_SESSION,
};
use vstd::prelude::*;

verus! {

/// What a caller that waits for a session is told.
#[derive(Debug, PartialEq, Eq)]
pub enum MenuPoll {
    /// The session is open and has no result yet.
    Pending,
    /// The wait is over, with the chosen item or without one.
    Resolved(Option<String>),
}

impl View for MenuPoll {
    type V = PollView;

    open spec fn view(&self) -> PollView {
        match *self {
            MenuPoll::Pending => PollView::Pending,
            MenuPoll::Resolved(item_id) => PollView::Resolved(text_view(item_id)),
        }
    }
}

struct SessionEntry {
    options: ContextMenuOptions,
    regions: MenuRegions,
}

impl View for SessionEntry {
    type V = SessionView;

    closed spec fn view(&self) -> SessionView {
        SessionView { options: self.options@, regions: self.regions@ }
    }
}

struct SessionResult {
    session_id: SessionId,
    item_id: Option<String>,
}

spec fn result_view(result: Option<SessionResult>) -> Option<ResultView> {
    match result {
        Some(r) => Some(ResultView { session_id: r.session_id, item_id: text_view(r.item_id) }),
        None => None,
    }
}

spec fn key_at(entries: Seq<SessionEntry>, i: int) -> SessionId {
    entries[i].options.session_id
}

spec fn keys_distinct(entries: Seq<SessionEntry>) -> bool {
    forall|i: int, j: int|
        0 <= i < j < entries.len() ==> #[trigger] key_at(entries, i) != #[trigger] key_at(
            entries,
            j,
        )
}

spec fn keys_issued(entries: Seq<SessionEntry>, last_issued: SessionId) -> bool {
    forall|i: int|
        0 <= i < entries.len() ==> NO_SESSION < #[trigger] key_at(entries, i) <= last_issued
}

spec fn has_key(entries: Seq<SessionEntry>, id: SessionId) -> bool {
    exists|i: int| 0 <= i < entries.len() && #[trigger] key_at(entries, i) == id
}

spec fn index_of(entries: Seq<SessionEntry>, id: SessionId) -> int {
    choose|i: int| 0 <= i < entries.len() && #[trigger] key_at(entries, i) == id
}

spec fn entries_map(entries: Seq<SessionEntry>) -> Map<SessionId, SessionView> {
    Map::new(|id: SessionId| has_key(entries, id), |id: SessionId| entries[index_of(entries, id)]@)
}

proof fn lemma_entries_map(entries: Seq<SessionEntry>)
    requires
        keys_distinct(entries),
    ensures
        forall|i: int|
            0 <= i < entries.len() ==> {
                &&& entries_map(entries).dom().contains(#[trigger] key_at(entries, i))
                &&& entries_map(entries)[key_at(entries, i)] == entries[i]@
            },
        forall|id: SessionId| #[trigger]
            entries_map(entries).dom().contains(id) ==> {
                &&& 0 <= index_of(entries, id) < entries.len()
                &&& key_at(entries, index_of(entries, id)) == id
            },
{
    assert forall|i: int| 0 <= i < entries.len() implies {
        &&& entries_map(entries).dom().contains(#[trigger] key_at(entries, i))
        &&& entries_map(entries)[key_at(entries, i)] == entries[i]@
    } by {
        let id = key_at(entries, i);
        assert(has_key(entries, id));
        let j = index_of(entries, id);
        assert(key_at(entries, j) == key_at(entries, i));
        assert(j == i);
    }
}

proof fn lemma_push(entries: Seq<SessionEntry>, entry: SessionEntry)
    requires
        keys_distinct(entries),
        !has_key(entries, entry.options.session_id),
    ensures
        keys_distinct(entries.push(entry)),
        entries_map(entries.push(entry)) == entries_map(entries).insert(
            entry.options.session_id,
            entry@,
        ),
        forall|last_issued: SessionId|
            keys_issued(entries, last_issued) && NO_SESSION < entry.options.session_id
                <= last_issued ==> #[trigger] keys_issued(entries.push(entry), last_issued),
{
    let grown = entries.push(entry);
    let id = entry.options.session_id;
    assert forall|last_issued: SessionId|
        keys_issued(entries, last_issued) && NO_SESSION < id
            <= last_issued implies #[trigger] keys_issued(grown, last_issued) by {
        assert forall|i: int| 0 <= i < grown.len() implies NO_SESSION < #[trigger] key_at(
            grown,
            i,
        ) <= last_issued by {
            if i < entries.len() {
                assert(key_at(grown, i) == key_at(entries, i));
            }
        }
    }
    assert(keys_distinct(grown)) by {
        assert forall|i: int, j: int| 0 <= i < j < grown.len() implies #[trigger] key_at(grown, i)
            != #[trigger] key_at(grown, j) by {
            assert(key_at(grown, i) == key_at(entries, i));
            if j < entries.len() {
                assert(key_at(grown, j) == key_at(entries, j));
            }
        }
    }
    lemma_entries_map(entries);
    lemma_entries_map(grown);
    let lhs = entries_map(grown);
    let rhs = entries_map(entries).insert(id, entry@);
    assert forall|k: SessionId| lhs.dom().contains(k) <==> rhs.dom().contains(k) by {
        if lhs.dom().contains(k) {
            let i = index_of(grown, k);
            if i < entries.len() {
                assert(key_at(entries, i) == k);
            }
        }
        if rhs.dom().contains(k) {
            if k == id {
                assert(key_at(grown, entries.len() as int) == id);
            } else {
                let i = index_of(entries, k);
                assert(key_at(grown, i) == k);
            }
        }
    }
    assert forall|k: SessionId| lhs.dom().contains(k) implies lhs[k] == rhs[k] by {
        let i = index_of(grown, k);
        assert(lhs[key_at(grown, i)] == grown[i]@);
        if i < entries.len() {
            assert(key_at(entries, i) == k);
            assert(entries_map(entries)[key_at(entries, i)] == entries[i]@);
        }
    }
    assert(lhs =~= rhs);
}

proof fn lemma_remove(entries: Seq<SessionEntry>, at: int)
    requires
        keys_distinct(entries),
        0 <= at < entries.len(),
    ensures
        keys_distinct(entries.remove(at)),
        entries_map(entries.remove(at)) == entries_map(entries).remove(key_at(entries, at)),
        forall|last_issued: SessionId|
            keys_issued(entries, last_issued) ==> #[trigger] keys_issued(
                entries.remove(at),
                last_issued,
            ),
{
    let rest = entries.remove(at);
    let id = key_at(entries, at);
    assert forall|last_issued: SessionId| keys_issued(entries, last_issued) implies #[trigger]
        keys_issued(rest, last_issued) by {
        assert forall|i: int| 0 <= i < rest.len() implies NO_SESSION < #[trigger] key_at(rest, i)
            <= last_issued by {
            assert(key_at(rest, i) == key_at(entries, if i < at { i } else { i + 1 }));
        }
    }
    assert forall|i: int| 0 <= i < rest.len() implies #[trigger] key_at(rest, i) == key_at(
        entries,
        if i < at {
            i
        } else {
            i + 1
        },
    ) by {}
    assert(keys_distinct(rest)) by {
        assert forall|i: int, j: int| 0 <= i < j < rest.len() implies #[trigger] key_at(rest, i)
            != #[trigger] key_at(rest, j) by {
            let oi = if i < at { i } else { i + 1 };
            let oj = if j < at { j } else { j + 1 };
            assert(key_at(rest, i) == key_at(entries, oi));
            assert(key_at(rest, j) == key_at(entries, oj));
        }
    }
    lemma_entries_map(entries);
    lemma_entries_map(rest);
    let lhs = entries_map(rest);
    let rhs = entries_map(entries).remove(id);
    assert forall|k: SessionId| lhs.dom().contains(k) <==> rhs.dom().contains(k) by {
        if lhs.dom().contains(k) {
            let i = index_of(rest, k);
            let oi = if i < at { i } else { i + 1 };
            assert(key_at(rest, i) == key_at(entries, oi));
            assert(key_at(entries, oi) != key_at(entries, at));
        }
        if rhs.dom().contains(k) {
            let oi = index_of(entries, k);
            assert(oi != at);
            let i = if oi < at { oi } else { oi - 1 };
            assert(key_at(rest, i) == k);
        }
    }
    assert forall|k: SessionId| lhs.dom().contains(k) implies lhs[k] == rhs[k] by {
        let i = index_of(rest, k);
        let oi = if i < at { i } else { i + 1 };
        assert(lhs[key_at(rest, i)] == rest[i]@);
        assert(key_at(rest, i) == key_at(entries, oi));
        assert(entries_map(entries)[key_at(entries, oi)] == entries[oi]@);
    }
    assert(lhs =~= rhs);
}

proof fn lemma_absent(entries: Seq<SessionEntry>, id: SessionId)
    requires
        !has_key(entries, id),
    ensures
        !entries_map(entries).dom().contains(id),
        entries_map(entries).remove(id) == entries_map(entries),
{
    assert(entries_map(entries).remove(id) =~= entries_map(entries));
}

/// The session registry.
pub struct SessionRegistry {
    active: SessionId,
    last_issued: SessionId,
    entries: Vec<SessionEntry>,
    result: Option<SessionResult>,
}

impl View for SessionRegistry {
    type V = RegistryModel;

    closed spec fn view(&self) -> RegistryModel {
        RegistryModel {
            active: self.active,
            last_issued: self.last_issued,
            sessions: entries_map(self.entries@),
            result: result_view(self.result),
        }
    }
}

impl SessionRegistry {
    #[verifier::type_invariant]
    spec fn inv(&self) -> bool {
        &&& self.active <= self.last_issued
        &&& keys_distinct(self.entries@)
        &&& keys_issued(self.entries@, self.last_issued)
        &&& self.result matches Some(r) ==> NO_SESSION < r.session_id <= self.last_issued
    }

    proof fn lemma_inv_gives_wf(&self)
        requires
            self.inv(),
        ensures
            self@.wf(),
    {
        lemma_entries_map(self.entries@);
        assert forall|id: SessionId| #[trigger]
            self@.sessions.dom().contains(id) implies NO_SESSION < id <= self@.last_issued
            && self@.sessions[id].options.session_id == id by {
            let i = index_of(self.entries@, id);
            assert(key_at(self.entries@, i) == id);
            assert(self@.sessions[key_at(self.entries@, i)] == self.entries@[i]@);
        }
    }

    /// A registry without sessions.
    pub fn new() -> (registry: Self)
        ensures
            registry@ == RegistryModel::empty(),
            registry@.wf(),
    {
        let registry = SessionRegistry {
            active: NO_SESSION,
            last_issued: NO_SESSION,
            entries: Vec::new(),
            result: None,
        };
        proof {
            assert(registry@.sessions =~= Map::empty());
        }
        registry
    }

    /// Moves the records out, leaving none behind.
    fn take_entries(&mut self) -> (entries: Vec<SessionEntry>)
        ensures
            entries == old(self).entries,
            final(self).entries@ == Seq::<SessionEntry>::empty(),
            final(self).active == old(self).active,
            final(self).last_issued == old(self).last_issued,
            final(self).result == old(self).result,
    {
        proof {
            use_type_invariant(&*self);
        }
        let mut entries: Vec<SessionEntry> = Vec::new();
        core::mem::swap(&mut self.entries, &mut entries);
        entries
    }

    /// A registry without sessions that goes on counting after `last_issued`: the
    /// first session gets the identifier that follows it. For a caller that has
    /// handed out identifiers before and must not use one twice.
    pub fn starting_after(last_issued: SessionId) -> (registry: Self)
        ensures
            registry@ == (RegistryModel { last_issued, ..RegistryModel::empty() }),
            registry@.wf(),
    {
        let registry = SessionRegistry {
            active: NO_SESSION,
            last_issued,
            entries: Vec::new(),
            result: None,
        };
        proof {
            assert(registry@.sessions =~= Map::empty());
        }
        registry
    }

    fn find(&self, id: SessionId) -> (found: Option<usize>)
        ensures
            match found {
                Some(i) => i < self.entries@.len() && key_at(self.entries@, i as int) == id,
                None => !has_key(self.entries@, id),
            },
    {
        let mut i: usize = 0;
        while i < self.entries.len()
            invariant
                i <= self.entries@.len(),
                forall|k: int| 0 <= k < i ==> #[trigger] key_at(self.entries@, k) != id,
            decreases self.entries@.len() - i,
        {
            if self.entries[i].options.session_id == id {
                return Some(i);
            }
            i = i + 1;
        }
        None
    }

    /// The active session, or `NO_SESSION` when there is none.
    pub fn get_active_menu_session(&self) -> (id: SessionId)
        ensures
            id == self@.active,
            self@.wf(),
    {
        proof {
            use_type_invariant(self);
            self.lemma_inv_gives_wf();
        }
        self.active
    }

    /// The cached options of session `id`, until they are cleared.
    pub fn options_for_session(&self, id: SessionId) -> (options: Option<&ContextMenuOptions>)
        ensures
            match options {
                Some(o) => self@.options_of(id) == Some(o@),
                None => self@.options_of(id).is_none(),
            },
    {
        proof {
            use_type_invariant(self);
            lemma_entries_map(self.entries@);
        }
        match self.find(id) {
            Some(i) => Some(&self.entries[i].options),
            None => {
                proof {
                    lemma_absent(self.entries@, id);
                }
                None
            },
        }
    }

    /// The cached options of the active session. `None` when no session is active or
    /// nothing is cached for the active one.
    pub fn get_options(&self) -> (options: Option<&ContextMenuOptions>)
        ensures
            match options {
                Some(o) => self@.active_options() == Some(o@),
                None => self@.active_options().is_none(),
            },
    {
        self.options_for_session(self.active)
    }

    /// The regions last reported for the active session.
    pub fn get_menu_regions(&self) -> (regions: Option<&MenuRegions>)
        ensures
            match regions {
                Some(r) => self@.regions_of(self@.active) == Some(r@),
                None => self@.regions_of(self@.active).is_none(),
            },
    {
        proof {
            use_type_invariant(self);
            lemma_entries_map(self.entries@);
        }
        match self.find(self.active) {
            Some(i) => Some(&self.entries[i].regions),
            None => {
                proof {
                    lemma_absent(self.entries@, self.active);
                }
                None
            },
        }
    }

    /// Opens a session with `options` and makes it the active one. The session gets
    /// the next identifier, which is returned and written into the cached options.
    /// `None`, with the registry unchanged, once every identifier has been handed out.
    pub fn open_session(&mut self, options: ContextMenuOptions) -> (opened: Option<SessionId>)
        ensures
            match opened {
                Some(id) => {
                    &&& old(self)@.can_open()
                    &&& id == old(self)@.next_id()
                    &&& final(self)@ == old(self)@.open(options@)
                },
                None => !old(self)@.can_open() && final(self)@ == old(self)@,
            },
            final(self)@.wf(),
    {
        proof {
            use_type_invariant(&*self);
            self.lemma_inv_gives_wf();
        }
        if self.last_issued == u64::MAX {
            return None;
        }
        let id: SessionId = self.last_issued + 1;
        let mut owned = options;
        owned.session_id = id;
        let entry = SessionEntry { options: owned, regions: MenuRegions::unknown() };
        proof {
            assert(!has_key(self.entries@, id));
            lemma_push(self.entries@, entry);
            assert(entry@.options == options@.owned_by(id));
        }
        let mut entries = self.take_entries();
        entries.push(entry);
        self.last_issued = id;
        self.entries = entries;
        self.active = id;
        proof {
            self.lemma_inv_gives_wf();
        }
        Some(id)
    }

    /// Records the result of the active session: the chosen item, or `None` for a
    /// dismissal. The first result of a session stands; a further call for the same
    /// session, or a call without an active session, changes nothing.
    pub fn set_result(&mut self, item_id: Option<String>)
        ensures
            final(self)@ == old(self)@.set_result(text_view(item_id)),
            final(self)@.wf(),
    {
        proof {
            use_type_invariant(&*self);
            self.lemma_inv_gives_wf();
        }
        if self.active == NO_SESSION {
            return ;
        }
        let held = match &self.result {
            Some(r) => r.session_id == self.active,
            None => false,
        };
        if !held {
            self.result = Some(SessionResult { session_id: self.active, item_id });
            proof {
                self.lemma_inv_gives_wf();
            }
        }
    }

    /// Tells a caller that waits for session `session_id` where it stands. A result
    /// recorded for that session is handed out once and leaves the slot. Without one,
    /// the wait goes on while the session is active, and ends empty-handed once it is
    /// not: the session was closed or another one took its place.
    pub fn poll_result(&mut self, session_id: SessionId) -> (poll: MenuPoll)
        ensures
            poll@ == old(self)@.poll(session_id),
            final(self)@ == old(self)@.after_poll(session_id),
            final(self)@.wf(),
    {
        proof {
            use_type_invariant(&*self);
            self.lemma_inv_gives_wf();
        }
        let held = match &self.result {
            Some(r) => r.session_id == session_id,
            None => false,
        };
        if held {
            let mut taken: Option<SessionResult> = None;
            core::mem::swap(&mut self.result, &mut taken);
            proof {
                self.lemma_inv_gives_wf();
            }
            match taken {
                Some(r) => MenuPoll::Resolved(r.item_id),
                None => MenuPoll::Resolved(None),
            }
        } else if session_id != NO_SESSION && self.active == session_id {
            MenuPoll::Pending
        } else {
            MenuPoll::Resolved(None)
        }
    }

    /// Clears the active marker, but only if it still names `session_id`: a session
    /// that has since become active is left alone.
    pub fn clear_active_menu_session(&mut self, session_id: SessionId)
        ensures
            final(self)@ == old(self)@.clear_active(session_id),
            final(self)@.wf(),
    {
        proof {
            use_type_invariant(&*self);
            self.lemma_inv_gives_wf();
        }
        if self.active == session_id {
            self.active = NO_SESSION;
            proof {
                self.lemma_inv_gives_wf();
            }
        }
    }

    /// Drops what is cached for `session_id`, whether or not that session is active.
    /// Clearing what is already gone changes nothing.
    pub fn clear_options_for_session(&mut self, session_id: SessionId)
        ensures
            final(self)@ == old(self)@.clear_options(session_id),
            final(self)@.wf(),
    {
        proof {
            use_type_invariant(&*self);
            self.lemma_inv_gives_wf();
        }
        match self.find(session_id) {
            Some(i) => {
                proof {
                    lemma_remove(self.entries@, i as int);
                }
                let mut entries = self.take_entries();
                let _ = entries.remove(i);
                self.entries = entries;
                proof {
                    self.lemma_inv_gives_wf();
                }
            },
            None => {
                proof {
                    lemma_absent(self.entries@, session_id);
                }
            },
        }
    }

    /// Replaces the regions of the active session by those of a fresh layout. The
    /// session keeps its identifier and its options. Without a cached record for the
    /// active session nothing changes.
    pub fn update_menu_regions(&mut self, main_menu: MenuRegion, submenus: Vec<MenuRegion>)
        ensures
            final(self)@ == old(self)@.update_regions(main_menu, submenus@),
            final(self)@.wf(),
    {
        proof {
            use_type_invariant(&*self);
            self.lemma_inv_gives_wf();
            lemma_entries_map(self.entries@);
        }
        match self.find(self.active) {
            Some(i) => {
                let ghost before = self.entries@;
                proof {
                    lemma_remove(before, i as int);
                }
                let mut entries = self.take_entries();
                let entry = entries.remove(i);
                let updated = SessionEntry {
                    options: entry.options,
                    regions: MenuRegions { main_menu: Some(main_menu), submenus },
                };
                proof {
                    lemma_entries_map(entries@);
                    assert(!has_key(entries@, self.active)) by {
                        if has_key(entries@, self.active) {
                            let k = index_of(entries@, self.active);
                            assert(key_at(entries@, k) == self.active);
                            assert(entries_map(entries@).dom().contains(key_at(entries@, k)));
                        }
                    }
                    lemma_push(entries@, updated);
                    assert(entries_map(before).remove(self.active).insert(self.active, updated@)
                        =~= entries_map(before).insert(self.active, updated@));
                }
                entries.push(updated);
                self.entries = entries;
                proof {
                    self.lemma_inv_gives_wf();
                }
            },
            None => {
                proof {
                    lemma_absent(self.entries@, self.active);
                }
            },
        }
    }
}

} // verus!
