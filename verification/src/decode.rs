//! The schema of an event line, and the decoder that holds a line to it.
//!
//! A line is one JSON object with the keys `id`, `type`, `public`,
//! `payload`, `repo`, `actor` and `created_at`, and optionally `org`. Keys
//! beyond these are ignored.

use vstd::prelude::*;
use vstd::utf8::{decode_utf8, valid_utf8};
use crate::error::DecodeReason;
use crate::event::{Actor, ActorView, Event, EventView, Org, OrgView, Repo, RepoView};
use crate::json::{json_document, parse_document, Json, JsonValue};
use crate::text::{trim, trimmed, utf8_text};
use crate::time::{parse_timestamp, utc_instant, Timestamp};

verus! {

/// The text of the string member under `key`.
pub open spec fn text_member(doc: JsonValue, key: Seq<char>) -> Option<Seq<char>> {
    match doc.member(key) {
        Some(member) => member.text(),
        None => None,
    }
}

/// The integer of the number member under `key`.
pub open spec fn int_member(doc: JsonValue, key: Seq<char>) -> Option<i64> {
    match doc.member(key) {
        Some(member) => member.integer(),
        None => None,
    }
}

/// The truth value of the boolean member under `key`.
pub open spec fn flag_member(doc: JsonValue, key: Seq<char>) -> Option<bool> {
    match doc.member(key) {
        Some(member) => member.flag(),
        None => None,
    }
}

/// The repository that a JSON value describes: an object with an integer
/// `id` and the strings `name` and `url`.
pub open spec fn repo_of(doc: JsonValue) -> Option<RepoView> {
    match (int_member(doc, "id"@), text_member(doc, "name"@), text_member(doc, "url"@)) {
        (Some(id), Some(name), Some(url)) => Some(RepoView { id, name, url }),
        _ => None,
    }
}

/// The actor that a JSON value describes: an object with an integer `id`
/// and the strings `login`, `gravatar_id`, `avatar_url` and `url`.
pub open spec fn actor_of(doc: JsonValue) -> Option<ActorView> {
    match (
        int_member(doc, "id"@),
        text_member(doc, "login"@),
        text_member(doc, "gravatar_id"@),
        text_member(doc, "avatar_url"@),
        text_member(doc, "url"@),
    ) {
        (Some(id), Some(login), Some(gravatar_id), Some(avatar_url), Some(url)) => Some(
            ActorView { id, login, gravatar_id, avatar_url, url },
        ),
        _ => None,
    }
}

/// The organisation that a JSON value describes: the shape of an actor.
pub open spec fn org_of(doc: JsonValue) -> Option<OrgView> {
    match actor_of(doc) {
        Some(a) => Some(
            OrgView {
                id: a.id,
                login: a.login,
                gravatar_id: a.gravatar_id,
                avatar_url: a.avatar_url,
                url: a.url,
            },
        ),
        None => None,
    }
}

/// The organisation of an event line. A line without the key `org`, or with
/// `null` under it, has none; anything else under it has to be an
/// organisation. The outer `None` stands for a line that breaks this rule.
pub open spec fn org_member(doc: JsonValue) -> Option<Option<OrgView>> {
    match doc.member("org"@) {
        None => Some(None),
        Some(JsonValue::Null) => Some(None),
        Some(org) => match org_of(org) {
            Some(o) => Some(Some(o)),
            None => None,
        },
    }
}

/// The instant under `created_at`, as the date parser reads it.
pub open spec fn instant_member(doc: JsonValue) -> Option<Timestamp> {
    match text_member(doc, "created_at"@) {
        Some(text) => match utc_instant(text) {
            Some((secs, nanos)) => Some(Timestamp { secs, nanos }),
            None => None,
        },
        None => None,
    }
}

/// The repository under `repo`.
pub open spec fn repo_member(doc: JsonValue) -> Option<RepoView> {
    match doc.member("repo"@) {
        Some(repo) => repo_of(repo),
        None => None,
    }
}

/// The actor under `actor`.
pub open spec fn actor_member(doc: JsonValue) -> Option<ActorView> {
    match doc.member("actor"@) {
        Some(actor) => actor_of(actor),
        None => None,
    }
}

/// The event that a JSON document describes, given the instant that was read
/// from its `created_at`: every required member is there in its type, and
/// neither `id` nor `type` is empty.
pub open spec fn event_with(doc: JsonValue, created_at: Option<Timestamp>) -> Option<EventView> {
    match (
        text_member(doc, "id"@),
        text_member(doc, "type"@),
        flag_member(doc, "public"@),
        doc.member("payload"@),
        repo_member(doc),
        actor_member(doc),
        org_member(doc),
        created_at,
    ) {
        (
            Some(id),
            Some(event_type),
            Some(public),
            Some(payload),
            Some(repo),
            Some(actor),
            Some(org),
            Some(created_at),
        ) => if id.len() > 0 && event_type.len() > 0 {
            Some(EventView { id, event_type, public, payload, repo, actor, org, created_at })
        } else {
            None
        },
        _ => None,
    }
}

/// The event that a JSON document describes.
pub open spec fn event_of(doc: JsonValue) -> Option<EventView> {
    event_with(doc, instant_member(doc))
}

/// What one line of the archive decodes to: the event it holds, or the
/// reason why it holds none. The line comes as it was read, terminator
/// included.
pub open spec fn line_event(raw: Seq<u8>) -> Result<EventView, DecodeReason> {
    if !valid_utf8(raw) {
        Err(DecodeReason::Encoding)
    } else if trimmed(decode_utf8(raw)).len() == 0 {
        Err(DecodeReason::Blank)
    } else {
        match json_document(trimmed(decode_utf8(raw))) {
            None => Err(DecodeReason::Syntax),
            Some(doc) => match event_of(doc) {
                None => Err(DecodeReason::Schema),
                Some(event) => Ok(event),
            },
        }
    }
}

/// Whether a line, as it was read, holds the JSON document `doc`: it is
/// UTF-8 text, not blank, and the parser reads `doc` from it.
pub open spec fn holds_document(raw: Seq<u8>, doc: JsonValue) -> bool {
    &&& valid_utf8(raw)
    &&& trimmed(decode_utf8(raw)).len() > 0
    &&& json_document(trimmed(decode_utf8(raw))) == Some(doc)
}

/// The members that every event line has to have.
pub open spec fn is_required_key(key: Seq<char>) -> bool {
    ||| key == "id"@
    ||| key == "type"@
    ||| key == "public"@
    ||| key == "payload"@
    ||| key == "repo"@
    ||| key == "actor"@
    ||| key == "created_at"@
}

/// A JSON document that lacks a required member describes no event,
/// whatever else it holds.
pub proof fn lemma_missing_member_is_no_event(doc: JsonValue, key: Seq<char>)
    requires
        is_required_key(key),
        doc.member(key) is None,
    ensures
        event_of(doc) is None,
{
}

/// A line that holds a JSON document without a required member decodes to
/// a schema error, not to an event.
pub proof fn lemma_line_without_member_is_refused(raw: Seq<u8>, doc: JsonValue, key: Seq<char>)
    requires
        holds_document(raw, doc),
        is_required_key(key),
        doc.member(key) is None,
    ensures
        line_event(raw) == Err::<EventView, DecodeReason>(DecodeReason::Schema),
{
    lemma_missing_member_is_no_event(doc, key);
}

/// Every event that a line decodes to has an identifier and a kind.
pub proof fn lemma_decoded_event_is_well_formed(raw: Seq<u8>)
    requires
        line_event(raw) is Ok,
    ensures
        line_event(raw)->Ok_0.well_formed(),
{
}

/// A line that decodes to an event is not empty: the end of the stream is
/// never mistaken for a line.
pub proof fn lemma_event_line_is_not_empty(raw: Seq<u8>)
    requires
        line_event(raw) is Ok,
    ensures
        raw.len() > 0,
{
}

/// The terminator of a line is immaterial. A line decodes to the same
/// whether it ends in a line feed, in a carriage return and a line feed, or,
/// as the last line of a file may, in neither.
pub proof fn lemma_terminator_is_immaterial(body: Seq<u8>)
    ensures
        line_event(body + seq![0x0au8]) == line_event(body),
        line_event(body + seq![0x0du8, 0x0au8]) == line_event(body),
{
    let lf = body.push(0x0a);
    let cr = body.push(0x0d);
    let crlf = cr.push(0x0a);
    assert(body + seq![0x0au8] =~= lf);
    assert(body + seq![0x0du8, 0x0au8] =~= crlf);
    crate::text::lemma_ascii_at_the_end(body, 0x0a);
    crate::text::lemma_ascii_at_the_end(body, 0x0d);
    crate::text::lemma_ascii_at_the_end(cr, 0x0a);
    if valid_utf8(body) {
        let text = decode_utf8(body);
        crate::text::lemma_trailing_space_is_trimmed(text, '\n');
        crate::text::lemma_trailing_space_is_trimmed(text, '\r');
        crate::text::lemma_trailing_space_is_trimmed(text.push('\r'), '\n');
    }
}

/// Copies the text of the string member under `key`.
fn text_at(doc: &Json, key: &str) -> (text: Option<String>)
    ensures
        match text {
            Some(t) => text_member(doc@, key@) == Some(t@),
            None => text_member(doc@, key@) is None,
        },
{
    match doc.get(key) {
        Some(member) => match member.as_str() {
            Some(t) => Some(t.to_owned()),
            None => None,
        },
        None => None,
    }
}

/// Reads the integer of the number member under `key`.
fn int_at(doc: &Json, key: &str) -> (value: Option<i64>)
    ensures
        value == int_member(doc@, key@),
{
    match doc.get(key) {
        Some(member) => member.as_i64(),
        None => None,
    }
}

/// Reads the truth value of the boolean member under `key`.
fn flag_at(doc: &Json, key: &str) -> (value: Option<bool>)
    ensures
        value == flag_member(doc@, key@),
{
    match doc.get(key) {
        Some(member) => member.as_bool(),
        None => None,
    }
}

impl Repo {
    /// Decodes a repository from the JSON value that describes it.
    pub fn from_json(doc: &Json) -> (repo: Option<Repo>)
        ensures
            match repo {
                Some(r) => repo_of(doc@) == Some(r@),
                None => repo_of(doc@) is None,
            },
    {
        let id = match int_at(doc, "id") {
            Some(id) => id,
            None => return None,
        };
        let name = match text_at(doc, "name") {
            Some(name) => name,
            None => return None,
        };
        let url = match text_at(doc, "url") {
            Some(url) => url,
            None => return None,
        };
        Some(Repo { id, name, url })
    }
}

impl Actor {
    /// Decodes an actor from the JSON value that describes it.
    pub fn from_json(doc: &Json) -> (actor: Option<Actor>)
        ensures
            match actor {
                Some(a) => actor_of(doc@) == Some(a@),
                None => actor_of(doc@) is None,
            },
    {
        let id = match int_at(doc, "id") {
            Some(id) => id,
            None => return None,
        };
        let login = match text_at(doc, "login") {
            Some(login) => login,
            None => return None,
        };
        let gravatar_id = match text_at(doc, "gravatar_id") {
            Some(gravatar_id) => gravatar_id,
            None => return None,
        };
        let avatar_url = match text_at(doc, "avatar_url") {
            Some(avatar_url) => avatar_url,
            None => return None,
        };
        let url = match text_at(doc, "url") {
            Some(url) => url,
            None => return None,
        };
        Some(Actor { id, login, gravatar_id, avatar_url, url })
    }
}

impl Org {
    /// Decodes an organisation from the JSON value that describes it.
    pub fn from_json(doc: &Json) -> (org: Option<Org>)
        ensures
            match org {
                Some(o) => org_of(doc@) == Some(o@),
                None => org_of(doc@) is None,
            },
    {
        match Actor::from_json(doc) {
            Some(a) => Some(
                Org {
                    id: a.id,
                    login: a.login,
                    gravatar_id: a.gravatar_id,
                    avatar_url: a.avatar_url,
                    url: a.url,
                },
            ),
            None => None,
        }
    }
}

/// Decodes the optional organisation of an event line.
fn org_at(doc: &Json) -> (org: Option<Option<Org>>)
    ensures
        match org {
            Some(Some(o)) => org_member(doc@) == Some(Some(o@)),
            Some(None) => org_member(doc@) == Some(None::<OrgView>),
            None => org_member(doc@) is None,
        },
{
    match doc.get("org") {
        None => Some(None),
        Some(member) => if member.is_null() {
            Some(None)
        } else {
            match Org::from_json(member) {
                Some(o) => Some(Some(o)),
                None => None,
            }
        },
    }
}

impl Event {
    /// Builds the event that a JSON document describes, given the instant
    /// that was read from its `created_at`. The payload is moved out of the
    /// document, not copied.
    pub fn assemble(doc: Json, created_at: Option<Timestamp>) -> (event: Option<Event>)
        ensures
            match event {
                Some(e) => event_with(doc@, created_at) == Some(e@),
                None => event_with(doc@, created_at) is None,
            },
    {
        let created_at = match created_at {
            Some(at) => at,
            None => return None,
        };
        let id = match text_at(&doc, "id") {
            Some(id) => id,
            None => return None,
        };
        let event_type = match text_at(&doc, "type") {
            Some(event_type) => event_type,
            None => return None,
        };
        let public = match flag_at(&doc, "public") {
            Some(public) => public,
            None => return None,
        };
        let repo = match doc.get("repo") {
            Some(member) => match Repo::from_json(member) {
                Some(repo) => repo,
                None => return None,
            },
            None => return None,
        };
        let actor = match doc.get("actor") {
            Some(member) => match Actor::from_json(member) {
                Some(actor) => actor,
                None => return None,
            },
            None => return None,
        };
        let org = match org_at(&doc) {
            Some(org) => org,
            None => return None,
        };
        if id.as_str().is_empty() || event_type.as_str().is_empty() {
            return None;
        }
        let payload = match doc.into_member("payload") {
            Some(payload) => payload,
            None => return None,
        };
        Some(Event { id, event_type, public, payload, repo, actor, org, created_at })
    }

    /// Decodes the event that a JSON document describes. The instant under
    /// `created_at` is read by the date parser.
    pub fn from_json(doc: Json) -> (event: Option<Event>)
        ensures
            match event {
                Some(e) => event_of(doc@) == Some(e@) && e@.well_formed(),
                None => event_of(doc@) is None,
            },
    {
        let created_at = match text_at(&doc, "created_at") {
            Some(text) => parse_timestamp(text.as_str()),
            None => None,
        };
        Event::assemble(doc, created_at)
    }
}

/// Decodes one line of the archive, as it was read: UTF-8 text that, without
/// the whitespace at its ends, is one JSON document describing an event.
pub fn decode_line(raw: &[u8]) -> (event: Result<Event, DecodeReason>)
    ensures
        match event {
            Ok(e) => line_event(raw@) == Ok::<EventView, DecodeReason>(e@) && e@.well_formed(),
            Err(reason) => line_event(raw@) == Err::<EventView, DecodeReason>(reason),
        },
{
    let text = match utf8_text(raw) {
        Some(text) => trim(text),
        None => return Err(DecodeReason::Encoding),
    };
    if text.is_empty() {
        return Err(DecodeReason::Blank);
    }
    let doc = match parse_document(text) {
        Some(doc) => doc,
        None => return Err(DecodeReason::Syntax),
    };
    match Event::from_json(doc) {
        Some(event) => Ok(event),
        None => Err(DecodeReason::Schema),
    }
}

} // verus!
