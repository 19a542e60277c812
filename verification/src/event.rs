//! The records of the archive: one event per line, with the repository, the
//! actor and, for some, the organisation it belongs to.

use vstd::prelude::*;
use crate::json::{Json, JsonValue};
use crate::time::Timestamp;

verus! {

/// The repository an event belongs to.
#[derive(Clone, Debug, PartialEq, Eq)]
pub struct Repo {
    pub id: i64,
    pub name: String,
    pub url: String,
}

/// The mathematical value of a [`Repo`].
pub struct RepoView {
    pub id: i64,
    pub name: Seq<char>,
    pub url: Seq<char>,
}

impl View for Repo {
    type V = RepoView;

    open spec fn view(&self) -> RepoView {
        RepoView { id: self.id, name: self.name@, url: self.url@ }
    }
}

/// Who triggered an event.
#[derive(Clone, Debug, PartialEq, Eq)]
pub struct Actor {
    pub id: i64,
    pub login: String,
    pub gravatar_id: String,
    pub avatar_url: String,
    pub url: String,
}

/// The mathematical value of an [`Actor`].
pub struct ActorView {
    pub id: i64,
    pub login: Seq<char>,
    pub gravatar_id: Seq<char>,
    pub avatar_url: Seq<char>,
    pub url: Seq<char>,
}

impl View for Actor {
    type V = ActorView;

    open spec fn view(&self) -> ActorView {
        ActorView {
            id: self.id,
            login: self.login@,
            gravatar_id: self.gravatar_id@,
            avatar_url: self.avatar_url@,
            url: self.url@,
        }
    }
}

/// The organisation an event happened in. Events of personal accounts have
/// none.
#[derive(Clone, Debug, PartialEq, Eq)]
pub struct Org {
    pub id: i64,
    pub login: String,
    pub gravatar_id: String,
    pub avatar_url: String,
    pub url: String,
}

/// The mathematical value of an [`Org`].
pub struct OrgView {
    pub id: i64,
    pub login: Seq<char>,
    pub gravatar_id: Seq<char>,
    pub avatar_url: Seq<char>,
    pub url: Seq<char>,
}

impl View for Org {
    type V = OrgView;

    open spec fn view(&self) -> OrgView {
        OrgView {
            id: self.id,
            login: self.login@,
            gravatar_id: self.gravatar_id@,
            avatar_url: self.avatar_url@,
            url: self.url@,
        }
    }
}

/// One archived activity record.
///
/// `event_type` is an open string, not a closed list of kinds, and `payload`
/// is whatever JSON the line held under that key: its shape depends on the
/// kind of event.
#[derive(Clone, Debug, PartialEq, Eq)]
pub struct Event {
    pub id: String,
    pub event_type: String,
    pub public: bool,
    pub payload: Json,
    pub repo: Repo,
    pub actor: Actor,
    pub org: Option<Org>,
    pub created_at: Timestamp,
}

/// The mathematical value of an [`Event`].
pub struct EventView {
    pub id: Seq<char>,
    pub event_type: Seq<char>,
    pub public: bool,
    pub payload: JsonValue,
    pub repo: RepoView,
    pub actor: ActorView,
    pub org: Option<OrgView>,
    pub created_at: Timestamp,
}

impl EventView {
    /// What holds of every event the connector emits: it has an identifier
    /// and a kind.
    pub open spec fn well_formed(self) -> bool {
        self.id.len() > 0 && self.event_type.len() > 0
    }
}

impl View for Event {
    type V = EventView;

    open spec fn view(&self) -> EventView {
        EventView {
            id: self.id@,
            event_type: self.event_type@,
            public: self.public,
            payload: self.payload@,
            repo: self.repo@,
            actor: self.actor@,
            org: match self.org {
                Some(org) => Some(org@),
                None => None,
            },
            created_at: self.created_at,
        }
    }
}

} // verus!
