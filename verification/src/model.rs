//! The registry as a mathematical value, and each operation as a function on it.
//!
//! Every contract of the executable registry and of the commands is stated over
//! [`RegistryModel`]. The functions here say what an operation does; the executable
//! code is proved to do the same.

use crate::options::{MenuRegion, OptionsView, RegionsView, SessionId, NO_SESSION};
use vstd::prelude::*;

verus! {

/// What the registry keeps for one session.
pub struct SessionView {
    pub options: OptionsView,
    pub regions: RegionsView,
}

/// A recorded result: the session it belongs to, and the chosen item. `None` as the
/// item stands for a dismissal.
pub struct ResultView {
    pub session_id: SessionId,
    pub item_id: Option<Seq<char>>,
}

/// What a caller that waits for a session is told.
pub enum PollView {
    /// The session is open and has no result yet.
    Pending,
    /// The wait is over, with the chosen item or without one.
    Resolved(Option<Seq<char>>),
}

/// The state of the registry.
pub struct RegistryModel {
    /// The active session, or `NO_SESSION`.
    pub active: SessionId,
    /// The identifier handed out last, or `NO_SESSION` before the first.
    pub last_issued: SessionId,
    /// The sessions whose options are cached, by identifier.
    pub sessions: Map<SessionId, SessionView>,
    /// The result slot.
    pub result: Option<ResultView>,
}

impl RegistryModel {
    /// The registry before any session.
    pub open spec fn empty() -> RegistryModel {
        RegistryModel {
            active: NO_SESSION,
            last_issued: NO_SESSION,
            sessions: Map::empty(),
            result: None,
        }
    }

    /// Every identifier in the state has been handed out, and each cached record is
    /// filed under the session that owns it.
    pub open spec fn wf(self) -> bool {
        &&& self.active <= self.last_issued
        &&& forall|id: SessionId| #[trigger]
            self.sessions.dom().contains(id) ==> {
                &&& NO_SESSION < id <= self.last_issued
                &&& self.sessions[id].options.session_id == id
            }
        &&& self.result matches Some(r) ==> NO_SESSION < r.session_id <= self.last_issued
    }

    /// Session `id` is the active one.
    pub open spec fn is_active(self, id: SessionId) -> bool {
        id != NO_SESSION && self.active == id
    }

    /// The cached options of session `id`.
    pub open spec fn options_of(self, id: SessionId) -> Option<OptionsView> {
        if self.sessions.dom().contains(id) {
            Some(self.sessions[id].options)
        } else {
            None
        }
    }

    /// The cached regions of session `id`.
    pub open spec fn regions_of(self, id: SessionId) -> Option<RegionsView> {
        if self.sessions.dom().contains(id) {
            Some(self.sessions[id].regions)
        } else {
            None
        }
    }

    /// The cached options of the active session.
    pub open spec fn active_options(self) -> Option<OptionsView> {
        self.options_of(self.active)
    }

    /// The result slot holds a result for session `id`.
    pub open spec fn holds_result_for(self, id: SessionId) -> bool {
        self.result matches Some(r) && r.session_id == id
    }

    /// Another identifier can be handed out.
    pub open spec fn can_open(self) -> bool {
        self.last_issued < u64::MAX
    }

    /// The identifier that the next session gets.
    pub open spec fn next_id(self) -> SessionId {
        (self.last_issued + 1) as SessionId
    }

    /// Opens a session: it gets the next identifier, becomes the active one, and
    /// `options` are cached under it. Records of other sessions stay.
    pub open spec fn open(self, options: OptionsView) -> RegistryModel
        recommends
            self.can_open(),
    {
        let id = self.next_id();
        RegistryModel {
            active: id,
            last_issued: id,
            sessions: self.sessions.insert(
                id,
                SessionView { options: options.owned_by(id), regions: RegionsView::unknown() },
            ),
            result: self.result,
        }
    }

    /// Records a result for the active session. Without an active session, or when
    /// the slot already holds a result for it, nothing changes: the first result of a
    /// session stands. A result left over from another session is replaced.
    pub open spec fn set_result(self, item_id: Option<Seq<char>>) -> RegistryModel {
        if self.active == NO_SESSION || self.holds_result_for(self.active) {
            self
        } else {
            RegistryModel {
                result: Some(ResultView { session_id: self.active, item_id }),
                ..self
            }
        }
    }

    /// What a caller that waits for session `id` is told now.
    pub open spec fn poll(self, id: SessionId) -> PollView {
        if self.holds_result_for(id) {
            PollView::Resolved(self.result->0.item_id)
        } else if self.is_active(id) {
            PollView::Pending
        } else {
            PollView::Resolved(None)
        }
    }

    /// The state after session `id` was polled: a result for it leaves the slot.
    pub open spec fn after_poll(self, id: SessionId) -> RegistryModel {
        if self.holds_result_for(id) {
            RegistryModel { result: None, ..self }
        } else {
            self
        }
    }

    /// Clears the active marker if it names session `id`.
    pub open spec fn clear_active(self, id: SessionId) -> RegistryModel {
        if self.active == id {
            RegistryModel { active: NO_SESSION, ..self }
        } else {
            self
        }
    }

    /// Drops what is cached for session `id`, active or not.
    pub open spec fn clear_options(self, id: SessionId) -> RegistryModel {
        RegistryModel { sessions: self.sessions.remove(id), ..self }
    }

    /// Replaces the regions of the active session. Its options stay. Without a cached
    /// record for the active session nothing changes.
    pub open spec fn update_regions(
        self,
        main_menu: MenuRegion,
        submenus: Seq<MenuRegion>,
    ) -> RegistryModel {
        if self.sessions.dom().contains(self.active) {
            RegistryModel {
                sessions: self.sessions.insert(
                    self.active,
                    SessionView {
                        options: self.sessions[self.active].options,
                        regions: RegionsView { main_menu: Some(main_menu), submenus },
                    },
                ),
                ..self
            }
        } else {
            self
        }
    }

    /// The cleanup of session `id`: the active marker goes if it still names `id`, the
    /// cached record of `id` goes in any case.
    pub open spec fn expire(self, id: SessionId) -> RegistryModel {
        self.clear_active(id).clear_options(id)
    }
}

} // verus!
