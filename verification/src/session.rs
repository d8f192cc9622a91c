//! Sessions: the liveness tokens that locks are attached to. The requests of
//! the session manager and the decoding of their answers.

use crate::error::{Error, Fault, Operation};
use crate::http::{Method, Request, Response};
use crate::kv::{decode_read, is_decode_error, read_outcome, text_of, Indexed};
use crate::options::QueryOptions;
use crate::text::join;
use crate::{query_of, token_of, Client, Config};
use vstd::prelude::*;
use vstd::string::*;

verus! {

/// The identifier that the store gives to a session that it created.
#[derive(Debug, PartialEq, Eq)]
pub struct SessionID {
    /// The identifier.
    pub id: String,
}

/// What happens to the entries that a session holds the lock on when the
/// session becomes invalid.
#[derive(Clone, Copy, Debug, PartialEq, Eq, Structural)]
pub enum Behavior {
    /// The entries become unlocked and stay.
    Release,
    /// The entries are removed.
    Delete,
}

/// A session, as the wire names its fields. Every field is optional: a
/// session to be created names what it wants to set, and the store fills in
/// the rest.
#[derive(Debug, PartialEq, Eq)]
pub struct SessionEntry {
    /// The store's index when the session was created.
    pub createindex: Option<u64>,
    /// The identifier, given by the store.
    pub id: Option<String>,
    /// A name for people to read.
    pub name: Option<String>,
    /// The node that the session is held on.
    pub node: Option<String>,
    /// For how long the locks of the session stay unavailable to others after
    /// the session became invalid.
    pub lockdelay: Option<u64>,
    /// `release` or `delete`: what becomes of the locked entries when the
    /// session becomes invalid.
    pub behavior: Option<String>,
    /// The health checks whose failure invalidates the session.
    pub checks: Option<Vec<String>>,
    /// After how much time without renewal the store invalidates the session;
    /// never, where absent.
    pub ttl: Option<String>,
}

/// A session as a mathematical value.
pub struct SessionRecord {
    pub create_index: Option<u64>,
    pub id: Option<Seq<char>>,
    pub name: Option<Seq<char>>,
    pub node: Option<Seq<char>>,
    pub lock_delay: Option<u64>,
    pub behavior: Option<Seq<char>>,
    pub checks: Option<Seq<Seq<char>>>,
    pub ttl: Option<Seq<char>>,
}

/// The texts of a list of strings.
pub open spec fn texts_of(list: Option<Vec<String>>) -> Option<Seq<Seq<char>>> {
    match list {
        Some(list) => Some(list@.map_values(|s: String| s@)),
        None => None,
    }
}

/// The behavior that a text names, if it names one.
pub open spec fn behavior_named(text: Seq<char>) -> Option<Behavior> {
    if text == "release"@ {
        Some(Behavior::Release)
    } else if text == "delete"@ {
        Some(Behavior::Delete)
    } else {
        None
    }
}

impl View for SessionEntry {
    type V = SessionRecord;

    open spec fn view(&self) -> SessionRecord {
        SessionRecord {
            create_index: self.createindex,
            id: text_of(self.id),
            name: text_of(self.name),
            node: text_of(self.node),
            lock_delay: self.lockdelay,
            behavior: text_of(self.behavior),
            checks: texts_of(self.checks),
            ttl: text_of(self.ttl),
        }
    }
}

impl SessionRecord {
    /// Whether the behavior, where one is named, is `release` or `delete`.
    pub open spec fn well_formed(self) -> bool {
        self.behavior matches Some(text) ==> behavior_named(text) is Some
    }

    /// What becomes of the locked entries when the session becomes invalid:
    /// what the session names, or else that they are released.
    pub open spec fn effective_behavior(self) -> Behavior {
        match self.behavior {
            Some(text) => match behavior_named(text) {
                Some(behavior) => behavior,
                None => Behavior::Release,
            },
            None => Behavior::Release,
        }
    }
}

fn clone_text(text: &Option<String>) -> (copy: Option<String>)
    ensures
        copy == *text,
{
    match text {
        Some(text) => Some(text.clone()),
        None => None,
    }
}

impl Clone for SessionID {
    fn clone(&self) -> (copy: Self)
        ensures
            copy == *self,
    {
        SessionID { id: self.id.clone() }
    }
}

impl Default for SessionID {
    fn default() -> (id: Self)
        ensures
            id.id@ == Seq::<char>::empty(),
    {
        SessionID { id: String::new() }
    }
}

impl Clone for SessionEntry {
    fn clone(&self) -> (copy: Self)
        ensures
            copy@ == self@,
    {
        let checks = match &self.checks {
            Some(list) => {
                let copy = list.clone();
                Some(copy)
            },
            None => None,
        };
        SessionEntry {
            createindex: self.createindex,
            id: clone_text(&self.id),
            name: clone_text(&self.name),
            node: clone_text(&self.node),
            lockdelay: self.lockdelay,
            behavior: clone_text(&self.behavior),
            checks,
            ttl: clone_text(&self.ttl),
        }
    }
}

impl Default for SessionEntry {
    fn default() -> (session: Self)
        ensures
            session@ == (SessionRecord {
                create_index: None,
                id: None,
                name: None,
                node: None,
                lock_delay: None,
                behavior: None,
                checks: None,
                ttl: None,
            }),
    {
        SessionEntry {
            createindex: None,
            id: None,
            name: None,
            node: None,
            lockdelay: None,
            behavior: None,
            checks: None,
            ttl: None,
        }
    }
}

/// The behavior that `text` names, if it names one.
pub fn parse_behavior(text: &str) -> (behavior: Option<Behavior>)
    ensures
        behavior == behavior_named(text@),
{
    if crate::text::same_str(text, "release") {
        Some(Behavior::Release)
    } else if crate::text::same_str(text, "delete") {
        Some(Behavior::Delete)
    } else {
        None
    }
}

impl Behavior {
    /// The name of the behavior on the wire.
    pub fn name(&self) -> (name: &'static str)
        ensures
            behavior_named(name@) == Some(*self),
    {
        proof {
            reveal_strlit("release");
            reveal_strlit("delete");
            assert("release"@ != "delete"@) by {
                assert("release"@.len() != "delete"@.len());
            }
        }
        match self {
            Behavior::Release => "release",
            Behavior::Delete => "delete",
        }
    }
}

impl SessionEntry {
    /// Whether the behavior, where one is named, is `release` or `delete`.
    pub fn is_well_formed(&self) -> (ok: bool)
        ensures
            ok == self@.well_formed(),
    {
        match &self.behavior {
            Some(text) => parse_behavior(text.as_str()).is_some(),
            None => true,
        }
    }

    /// What becomes of the locked entries when the session becomes invalid.
    pub fn effective_behavior(&self) -> (behavior: Behavior)
        ensures
            behavior == self@.effective_behavior(),
    {
        match &self.behavior {
            Some(text) => match parse_behavior(text.as_str()) {
                Some(behavior) => behavior,
                None => Behavior::Release,
            },
            None => Behavior::Release,
        }
    }
}

/// What a session to be created is called in an error: its name, or the
/// empty text where it has none.
pub open spec fn label_of(session: SessionRecord) -> Seq<char> {
    match session.name {
        Some(name) => name,
        None => Seq::empty(),
    }
}

/// Whether `error` says that a session was to be created with a behavior
/// that is none.
pub open spec fn is_invalid_behavior(error: Error, subject: Seq<char>) -> bool {
    error matches Error::InvalidBehavior { operation: o, subject: s } && o
        == Operation::SessionCreate && s@ == subject
}

/// What the answer to the creation of `wanted` says: the session as it was
/// asked for, with the identifier that the store gave it.
pub open spec fn created_outcome(
    wanted: SessionRecord,
    response: Response,
    parsed: Option<SessionID>,
) -> Result<SessionRecord, Fault> {
    if !(200 <= response.status <= 299) {
        Err(Fault::UnexpectedStatus(response.status))
    } else {
        match parsed {
            Some(given) => if given.id@.len() > 0 {
                Ok(SessionRecord { id: Some(given.id@), ..wanted })
            } else {
                Err(Fault::MalformedBody)
            },
            None => Err(Fault::MalformedBody),
        }
    }
}

/// The first session of a list, or none where the list is empty. A session
/// with a behavior that is none is a fault.
pub open spec fn first_session(sessions: Seq<SessionEntry>) -> Result<Option<SessionEntry>, Fault> {
    if sessions.len() == 0 {
        Ok(None)
    } else if sessions[0]@.well_formed() {
        Ok(Some(sessions[0]))
    } else {
        Err(Fault::MalformedBody)
    }
}

/// What the answer to a renewal says: the renewed session, or nothing where
/// the store no longer knows the session (a status of 404, or an empty
/// list). The session is then invalid for good and has to be created anew.
pub open spec fn renewed_outcome(response: Response, parsed: Option<Vec<SessionEntry>>) -> Result<
    Option<SessionEntry>,
    Fault,
> {
    if response.status == 404 {
        Ok(None)
    } else if !(200 <= response.status <= 299) {
        Err(Fault::UnexpectedStatus(response.status))
    } else {
        match parsed {
            Some(sessions) => first_session(sessions@),
            None => Err(Fault::MalformedBody),
        }
    }
}

/// What the answer to the read of one session says.
pub open spec fn info_outcome(response: Response, parsed: Option<Vec<SessionEntry>>) -> Result<
    (Option<SessionEntry>, u64),
    Fault,
> {
    match read_outcome(response, parsed) {
        Ok((sessions, index)) => match first_session(sessions) {
            Ok(session) => Ok((session, index)),
            Err(fault) => Err(fault),
        },
        Err(fault) => Err(fault),
    }
}

/// What the answer to the read of a list of sessions says.
pub open spec fn sessions_outcome(response: Response, parsed: Option<Vec<SessionEntry>>) -> Result<
    (Seq<SessionEntry>, u64),
    Fault,
> {
    match read_outcome(response, parsed) {
        Ok((sessions, index)) => if forall|i: int|
            0 <= i < sessions.len() ==> (#[trigger] sessions[i])@.well_formed() {
            Ok((sessions, index))
        } else {
            Err(Fault::MalformedBody)
        },
        Err(fault) => Err(fault),
    }
}

/// The requests of the session manager. Each method builds what is to be
/// sent; the answer is read by the decoding function named with it.
///
/// Nothing here renews a session by itself: the caller renews, at an interval
/// shorter than the session's time to live.
pub trait Session {
    /// The configuration that the requests are built from.
    spec fn config(&self) -> Config;

    /// The request that creates a session. The session itself is the body,
    /// which the caller encodes. A behavior that is neither `release` nor
    /// `delete` is refused. The answer is read by [`decode_created`].
    fn create_session(&self, session: &SessionEntry, options: Option<QueryOptions>) -> (r: Result<
        Request,
        Error,
    >)
        ensures
            if session@.well_formed() {
                r matches Ok(request) && request.consists_of(
                    Method::Put,
                    "/v1/session/create"@,
                    query_of(options),
                    token_of(self.config().token@, options),
                    None,
                )
            } else {
                r matches Err(error) && is_invalid_behavior(error, label_of(session@))
            },
    ;

    /// The request that destroys the session `id`. The answer is read by
    /// [`crate::kv::decode_flag`]; the store answers `true` also where it
    /// does not know the session.
    fn destroy_session(&self, id: &str, options: Option<QueryOptions>) -> (request: Request)
        ensures
            request.consists_of(
                Method::Put,
                "/v1/session/destroy/"@ + id@,
                query_of(options),
                token_of(self.config().token@, options),
                None,
            ),
    ;

    /// The request that reads the session `id`. The answer is read by
    /// [`decode_info`].
    fn get_session_info(&self, id: &str, options: Option<QueryOptions>) -> (request: Request)
        ensures
            request.consists_of(
                Method::Get,
                "/v1/session/info/"@ + id@,
                query_of(options),
                token_of(self.config().token@, options),
                None,
            ),
    ;

    /// The request that reads all sessions. The answer is read by
    /// [`decode_sessions`].
    fn list_sessions(&self, options: Option<QueryOptions>) -> (request: Request)
        ensures
            request.consists_of(
                Method::Get,
                "/v1/session/list"@,
                query_of(options),
                token_of(self.config().token@, options),
                None,
            ),
    ;

    /// The request that reads the sessions held on `node`. The answer is read
    /// by [`decode_sessions`].
    fn list_session_for_node(&self, node: &str, options: Option<QueryOptions>) -> (request: Request)
        ensures
            request.consists_of(
                Method::Get,
                "/v1/session/node/"@ + node@,
                query_of(options),
                token_of(self.config().token@, options),
                None,
            ),
    ;

    /// The request that renews the session `id`, which extends its life by
    /// its time to live. The answer is read by [`decode_renewed`].
    fn renew_session(&self, id: &str, options: Option<QueryOptions>) -> (request: Request)
        ensures
            request.consists_of(
                Method::Put,
                "/v1/session/renew/"@ + id@,
                query_of(options),
                token_of(self.config().token@, options),
                None,
            ),
    ;
}

impl Session for Client {
    open spec fn config(&self) -> Config {
        Client::config(self)
    }

    fn create_session(&self, session: &SessionEntry, options: Option<QueryOptions>) -> (r: Result<
        Request,
        Error,
    >) {
        if session.is_well_formed() {
            Ok(self.request(Method::Put, String::from_str("/v1/session/create"), &options))
        } else {
            let subject = match &session.name {
                Some(name) => name.clone(),
                None => String::new(),
            };
            Err(Error::InvalidBehavior { operation: Operation::SessionCreate, subject })
        }
    }

    fn destroy_session(&self, id: &str, options: Option<QueryOptions>) -> (request: Request) {
        self.request(Method::Put, join("/v1/session/destroy/", id), &options)
    }

    fn get_session_info(&self, id: &str, options: Option<QueryOptions>) -> (request: Request) {
        self.request(Method::Get, join("/v1/session/info/", id), &options)
    }

    fn list_sessions(&self, options: Option<QueryOptions>) -> (request: Request) {
        self.request(Method::Get, String::from_str("/v1/session/list"), &options)
    }

    fn list_session_for_node(&self, node: &str, options: Option<QueryOptions>) -> (request:
        Request) {
        self.request(Method::Get, join("/v1/session/node/", node), &options)
    }

    fn renew_session(&self, id: &str, options: Option<QueryOptions>) -> (request: Request) {
        self.request(Method::Put, join("/v1/session/renew/", id), &options)
    }
}

fn session_error(operation: Operation, subject: &str, fault: Fault) -> (error: Error)
    ensures
        is_decode_error(error, operation, subject@, fault),
{
    Error::Decode { operation, subject: String::from_str(subject), fault }
}

fn take_first(operation: Operation, subject: &str, sessions: Vec<SessionEntry>) -> (r: Result<
    Option<SessionEntry>,
    Error,
>)
    ensures
        match first_session(sessions@) {
            Ok(session) => r == Ok::<Option<SessionEntry>, Error>(session),
            Err(fault) => r matches Err(error) && is_decode_error(
                error,
                operation,
                subject@,
                fault,
            ),
        },
{
    let mut sessions = sessions;
    if sessions.len() == 0 {
        Ok(None)
    } else {
        let session = sessions.swap_remove(0);
        if session.is_well_formed() {
            Ok(Some(session))
        } else {
            Err(session_error(operation, subject, Fault::MalformedBody))
        }
    }
}

/// Decodes the answer to the creation of the session `wanted`. `parsed` is
/// the body read as an identifier, `None` where it is none. The session that
/// comes back is `wanted` with the identifier that the store gave it.
pub fn decode_created(
    wanted: SessionEntry,
    response: &Response,
    parsed: Option<SessionID>,
) -> (r: Result<SessionEntry, Error>)
    ensures
        match created_outcome(wanted@, *response, parsed) {
            Ok(session) => r matches Ok(got) && got@ == session,
            Err(fault) => r matches Err(error) && is_decode_error(
                error,
                Operation::SessionCreate,
                label_of(wanted@),
                fault,
            ),
        },
{
    let label = match &wanted.name {
        Some(name) => name.clone(),
        None => String::new(),
    };
    if !response.is_success() {
        return Err(
            session_error(
                Operation::SessionCreate,
                label.as_str(),
                Fault::UnexpectedStatus(response.status),
            ),
        );
    }
    match parsed {
        Some(given) => {
            if given.id.as_str().unicode_len() > 0 {
                let mut session = wanted;
                session.id = Some(given.id);
                Ok(session)
            } else {
                Err(session_error(Operation::SessionCreate, label.as_str(), Fault::MalformedBody))
            }
        },
        None => Err(session_error(Operation::SessionCreate, label.as_str(), Fault::MalformedBody)),
    }
}

/// Decodes the answer to the renewal of the session `id`. `parsed` is the
/// body read as a list of sessions, `None` where it is no such list. That
/// the session is no longer valid is no error: the result is then nothing,
/// and no later renewal can succeed.
pub fn decode_renewed(
    id: &str,
    response: &Response,
    parsed: Option<Vec<SessionEntry>>,
) -> (r: Result<Option<SessionEntry>, Error>)
    ensures
        match renewed_outcome(*response, parsed) {
            Ok(session) => r == Ok::<Option<SessionEntry>, Error>(session),
            Err(fault) => r matches Err(error) && is_decode_error(
                error,
                Operation::SessionRenew,
                id@,
                fault,
            ),
        },
{
    if response.is_not_found() {
        return Ok(None);
    }
    if !response.is_success() {
        return Err(
            session_error(Operation::SessionRenew, id, Fault::UnexpectedStatus(response.status)),
        );
    }
    match parsed {
        Some(sessions) => take_first(Operation::SessionRenew, id, sessions),
        None => Err(session_error(Operation::SessionRenew, id, Fault::MalformedBody)),
    }
}

/// Decodes the answer to the read of the session `id`: the session, or
/// nothing where the store knows none of that identifier.
pub fn decode_info(id: &str, response: &Response, parsed: Option<Vec<SessionEntry>>) -> (r: Result<
    Indexed<Option<SessionEntry>>,
    Error,
>)
    ensures
        match info_outcome(*response, parsed) {
            Ok((session, index)) => r matches Ok(got) && got.value == session && got.index
                == index,
            Err(fault) => r matches Err(error) && is_decode_error(
                error,
                Operation::SessionInfo,
                id@,
                fault,
            ),
        },
{
    match decode_read(Operation::SessionInfo, id, response, parsed) {
        Ok(read) => {
            let Indexed { value, index } = read;
            match take_first(Operation::SessionInfo, id, value) {
                Ok(session) => Ok(Indexed { value: session, index }),
                Err(error) => Err(error),
            }
        },
        Err(error) => Err(error),
    }
}

/// Decodes the answer to the read of a list of sessions: all of them, where
/// `node` is `None`, or those held on the node.
pub fn decode_sessions(
    node: Option<&str>,
    response: &Response,
    parsed: Option<Vec<SessionEntry>>,
) -> (r: Result<Indexed<Vec<SessionEntry>>, Error>)
    ensures
        match sessions_outcome(*response, parsed) {
            Ok((sessions, index)) => r matches Ok(got) && got.value@ == sessions && got.index
                == index,
            Err(fault) => r matches Err(error) && is_decode_error(
                error,
                if node is Some {
                    Operation::SessionListForNode
                } else {
                    Operation::SessionList
                },
                match node {
                    Some(node) => node@,
                    None => Seq::empty(),
                },
                fault,
            ),
        },
{
    let (operation, subject) = match node {
        Some(node) => (Operation::SessionListForNode, node),
        None => (Operation::SessionList, ""),
    };
    proof {
        reveal_strlit("");
        assert(""@ =~= Seq::<char>::empty());
    }
    match decode_read(operation, subject, response, parsed) {
        Ok(read) => {
            let mut i: usize = 0;
            while i < read.value.len()
                invariant
                    i <= read.value.len(),
                    read_outcome(*response, parsed) matches Ok((items, index)) && read.value@
                        == items && read.index == index,
                    forall|j: int| 0 <= j < i ==> (#[trigger] read.value@[j])@.well_formed(),
                    operation == if node is Some {
                        Operation::SessionListForNode
                    } else {
                        Operation::SessionList
                    },
                    subject@ == match node {
                        Some(node) => node@,
                        None => Seq::empty(),
                    },
                decreases read.value.len() - i,
            {
                if !read.value[i].is_well_formed() {
                    return Err(session_error(operation, subject, Fault::MalformedBody));
                }
                i = i + 1;
            }
            Ok(read)
        },
        Err(error) => Err(error),
    }
}

} // verus!
