//! The key/value namespace: its entries, the requests of its six operations
//! and the decoding of their answers.

use crate::error::{Error, Fault, Operation};
use crate::http::{carried_index, json_flag, Method, Request, Response};
use crate::options::QueryOptions;
use crate::payload::{decode_value, decoded};
use crate::text::{decimal, format_decimal, join};
use crate::{query_of, token_of, Client, Config};
use vstd::prelude::*;
use vstd::string::*;

verus! {

/// One entry of the key/value namespace, as the wire names its fields.
#[derive(Debug, PartialEq, Eq)]
pub struct KVPair {
    /// The key: a path-like name, unique in the store.
    pub key: String,
    /// The store's index when the entry was created.
    pub createindex: Option<u64>,
    /// The store's index when the entry was last written.
    pub modifyindex: Option<u64>,
    /// How often the entry changed its lock holder.
    pub lockindex: Option<u64>,
    /// A tag of the caller's, kept as it was given.
    pub flags: Option<u64>,
    /// The payload: as it is in an entry to be written, as encoded text in an
    /// entry that was read.
    pub value: String,
    /// The session that holds the lock on the entry; none when unlocked.
    pub session: Option<String>,
}

/// An entry as a mathematical value.
pub struct KeyValueEntry {
    pub key: Seq<char>,
    pub create_index: Option<u64>,
    pub modify_index: Option<u64>,
    pub lock_index: Option<u64>,
    pub flags: Option<u64>,
    pub value: Seq<char>,
    pub session: Option<Seq<char>>,
}

/// The text of an optional string.
pub open spec fn text_of(s: Option<String>) -> Option<Seq<char>> {
    match s {
        Some(s) => Some(s@),
        None => None,
    }
}

impl View for KVPair {
    type V = KeyValueEntry;

    open spec fn view(&self) -> KeyValueEntry {
        KeyValueEntry {
            key: self.key@,
            create_index: self.createindex,
            modify_index: self.modifyindex,
            lock_index: self.lockindex,
            flags: self.flags,
            value: self.value@,
            session: text_of(self.session),
        }
    }
}

impl Clone for KVPair {
    fn clone(&self) -> (copy: Self)
        ensures
            copy == *self,
    {
        KVPair {
            key: self.key.clone(),
            createindex: self.createindex,
            modifyindex: self.modifyindex,
            lockindex: self.lockindex,
            flags: self.flags,
            value: self.value.clone(),
            session: match &self.session {
                Some(id) => Some(id.clone()),
                None => None,
            },
        }
    }
}

impl Default for KVPair {
    fn default() -> (pair: Self)
        ensures
            pair@ == (KeyValueEntry {
                key: Seq::empty(),
                create_index: None,
                modify_index: None,
                lock_index: None,
                flags: None,
                value: Seq::empty(),
                session: None,
            }),
    {
        KVPair {
            key: String::new(),
            createindex: None,
            modifyindex: None,
            lockindex: None,
            flags: None,
            value: String::new(),
            session: None,
        }
    }
}

impl KeyValueEntry {
    /// What holds of every entry that the store hands out: it was not last
    /// written before it was created.
    pub open spec fn well_formed(self) -> bool {
        self.create_index matches Some(created) ==> (self.modify_index matches Some(modified)
            ==> created <= modified)
    }
}

impl KVPair {
    /// The payload of an entry that was read. Such an entry carries its
    /// payload as encoded text, which is decoded here; nothing is returned
    /// where the text stands for no payload. An entry to be written carries
    /// its payload as it is.
    pub fn payload(&self) -> (payload: Option<Vec<u8>>)
        ensures
            match decoded(vstd::utf8::encode_utf8(self.value@)) {
                Some(bytes) => payload matches Some(got) && got@ == bytes,
                None => payload is None,
            },
    {
        decode_value(self.value.as_str())
    }

    /// Whether the entry was not last written before it was created.
    pub fn is_well_formed(&self) -> (ok: bool)
        ensures
            ok == self@.well_formed(),
    {
        match (self.createindex, self.modifyindex) {
            (Some(created), Some(modified)) => created <= modified,
            _ => true,
        }
    }
}

/// A typed result together with the store's index that came with it. The
/// index is what a caller hands to the next blocking read.
#[derive(Debug, PartialEq, Eq)]
pub struct Indexed<T> {
    /// The result.
    pub value: T,
    /// The store's index as the answer carried it.
    pub index: u64,
}

/// The path of a key or of a prefix.
pub open spec fn kv_path(key: Seq<char>) -> Seq<char> {
    "/v1/kv/"@ + key
}

/// `query` with the caller's tag, where there is one and it is not zero.
pub open spec fn with_flags(query: Map<Seq<char>, Seq<char>>, flags: Option<u64>) -> Map<
    Seq<char>,
    Seq<char>,
> {
    match flags {
        Some(tag) => if tag != 0 {
            query.insert("flags"@, decimal(tag as nat))
        } else {
            query
        },
        None => query,
    }
}

/// `query` with the mark that asks for a whole subtree, where `recursive`.
pub open spec fn with_recurse(query: Map<Seq<char>, Seq<char>>, recursive: bool) -> Map<
    Seq<char>,
    Seq<char>,
> {
    if recursive {
        query.insert("recurse"@, ""@)
    } else {
        query
    }
}

/// Whether `error` says that the answer to `operation` on `subject` could
/// not be decoded because of `fault`.
pub open spec fn is_decode_error(
    error: Error,
    operation: Operation,
    subject: Seq<char>,
    fault: Fault,
) -> bool {
    error matches Error::Decode { operation: o, subject: s, fault: f } && o == operation && s@
        == subject && f == fault
}

/// Whether `error` says that `operation` on `subject` named no session.
pub open spec fn is_missing_session(error: Error, operation: Operation, subject: Seq<char>) -> bool {
    error matches Error::MissingSession { operation: o, subject: s } && o == operation && s@
        == subject
}

/// What the answer to a write says: the truth value in its body, where the
/// status is one of success.
pub open spec fn flag_outcome(response: Response) -> Result<bool, Fault> {
    if 200 <= response.status <= 299 {
        match json_flag(response.body@) {
            Some(flag) => Ok(flag),
            None => Err(Fault::MalformedBody),
        }
    } else {
        Err(Fault::UnexpectedStatus(response.status))
    }
}

/// What the answer to a read says. `parsed` is the body read as a list of
/// items, `None` where it is no such list.
///
/// A status of 404 and an empty body both stand for the empty list. Any
/// other status than 404 and those of success is a fault. An answer that is
/// none carries the store's index, or is faulty. Only then is the body
/// looked at.
pub open spec fn read_outcome<T>(response: Response, parsed: Option<Vec<T>>) -> Result<
    (Seq<T>, u64),
    Fault,
> {
    let served = 200 <= response.status <= 299;
    if !served && response.status != 404 {
        Err(Fault::UnexpectedStatus(response.status))
    } else {
        match carried_index(response.headers@) {
            None => Err(Fault::MissingIndex),
            Some(index) => if served && response.body@.len() > 0 {
                match parsed {
                    Some(items) => Ok((items@, index)),
                    None => Err(Fault::MalformedBody),
                }
            } else {
                Ok((Seq::empty(), index))
            },
        }
    }
}

/// What the answer to the read of one key says: the first entry of the list,
/// or none where the list is empty. An entry that was last written before it
/// was created is a fault.
pub open spec fn get_outcome(response: Response, parsed: Option<Vec<KVPair>>) -> Result<
    (Option<KVPair>, u64),
    Fault,
> {
    match read_outcome(response, parsed) {
        Ok((entries, index)) => if entries.len() == 0 {
            Ok((None, index))
        } else if entries[0]@.well_formed() {
            Ok((Some(entries[0]), index))
        } else {
            Err(Fault::MalformedBody)
        },
        Err(fault) => Err(fault),
    }
}

/// What the answer to the read of a prefix says: the entries in the order of
/// the answer. An entry that was last written before it was created is a
/// fault.
pub open spec fn list_outcome(response: Response, parsed: Option<Vec<KVPair>>) -> Result<
    (Seq<KVPair>, u64),
    Fault,
> {
    match read_outcome(response, parsed) {
        Ok((entries, index)) => if forall|i: int|
            0 <= i < entries.len() ==> (#[trigger] entries[i])@.well_formed() {
            Ok((entries, index))
        } else {
            Err(Fault::MalformedBody)
        },
        Err(fault) => Err(fault),
    }
}

/// The bytes that carry a payload.
pub open spec fn payload_bytes(value: Seq<char>) -> Seq<u8> {
    vstd::utf8::encode_utf8(value)
}

/// The query of a request that takes or gives back the lock on an entry:
/// that of the options, the caller's tag, and the session under `verb`.
pub open spec fn lock_query(
    options: Option<QueryOptions>,
    flags: Option<u64>,
    verb: Seq<char>,
    session: Seq<char>,
) -> Map<Seq<char>, Seq<char>> {
    with_flags(query_of(options), flags).insert(verb, session)
}

/// The requests of the key/value namespace. Each method builds what is to be
/// sent; the answer is read by the decoding function named with it.
pub trait KV {
    /// The configuration that the requests are built from.
    spec fn config(&self) -> Config;

    /// The request that tries to make the session named in `pair` the lock
    /// holder of the entry, creating the entry if there is none. Without a
    /// session in `pair` there is nothing to send. The answer is read by
    /// [`decode_flag`]: `false` says that another session holds the lock, and
    /// that the caller may try again later.
    fn acquire_entry(&self, pair: &KVPair, options: Option<QueryOptions>) -> (r: Result<
        Request,
        Error,
    >)
        ensures
            match pair.session {
                Some(session) => r matches Ok(request) && request.consists_of(
                    Method::Put,
                    kv_path(pair.key@),
                    lock_query(options, pair.flags, "acquire"@, session@),
                    token_of(self.config().token@, options),
                    Some(payload_bytes(pair.value@)),
                ),
                None => r matches Err(error) && is_missing_session(
                    error,
                    Operation::KvAcquire,
                    pair.key@,
                ),
            },
    ;

    /// The request that removes one key or, where `recursive`, every key
    /// that begins with `key`. The answer is read by [`decode_flag`].
    fn delete_entry(&self, key: &str, recursive: bool, options: Option<QueryOptions>) -> (request:
        Request)
        ensures
            request.consists_of(
                Method::Delete,
                kv_path(key@),
                with_recurse(query_of(options), recursive),
                token_of(self.config().token@, options),
                None,
            ),
    ;

    /// The request that reads one key. The answer is read by [`decode_get`].
    fn get_entry(&self, key: &str, options: Option<QueryOptions>) -> (request: Request)
        ensures
            request.consists_of(
                Method::Get,
                kv_path(key@),
                query_of(options),
                token_of(self.config().token@, options),
                None,
            ),
    ;

    /// The request that reads every key that begins with `prefix`. The
    /// answer is read by [`decode_list`].
    fn list_entries(&self, prefix: &str, options: Option<QueryOptions>) -> (request: Request)
        ensures
            request.consists_of(
                Method::Get,
                kv_path(prefix@),
                with_recurse(query_of(options), true),
                token_of(self.config().token@, options),
                None,
            ),
    ;

    /// The request that writes the value and the tag of `pair`, creating the
    /// entry if there is none. Who holds the lock is left as it is. The
    /// answer is read by [`decode_flag`].
    fn put_entry(&self, pair: &KVPair, options: Option<QueryOptions>) -> (request: Request)
        ensures
            request.consists_of(
                Method::Put,
                kv_path(pair.key@),
                with_flags(query_of(options), pair.flags),
                token_of(self.config().token@, options),
                Some(payload_bytes(pair.value@)),
            ),
    ;

    /// The request that gives back the lock that the session named in `pair`
    /// holds on the entry. Without a session in `pair` there is nothing to
    /// send. The answer is read by [`decode_flag`]: `false` says that the
    /// session did not hold the lock.
    fn release_entry(&self, pair: &KVPair, options: Option<QueryOptions>) -> (r: Result<
        Request,
        Error,
    >)
        ensures
            match pair.session {
                Some(session) => r matches Ok(request) && request.consists_of(
                    Method::Put,
                    kv_path(pair.key@),
                    lock_query(options, pair.flags, "release"@, session@),
                    token_of(self.config().token@, options),
                    Some(payload_bytes(pair.value@)),
                ),
                None => r matches Err(error) && is_missing_session(
                    error,
                    Operation::KvRelease,
                    pair.key@,
                ),
            },
    ;
}

impl Client {
    /// The request that writes `pair`: its value as the body, its tag in the
    /// query.
    fn write_request(&self, pair: &KVPair, options: &Option<QueryOptions>) -> (request: Request)
        ensures
            request.consists_of(
                Method::Put,
                kv_path(pair.key@),
                with_flags(query_of(*options), pair.flags),
                token_of(self.config().token@, *options),
                Some(payload_bytes(pair.value@)),
            ),
    {
        let path = join("/v1/kv/", pair.key.as_str());
        let mut request = self.request(Method::Put, path, options);
        match pair.flags {
            Some(tag) => {
                if tag != 0 {
                    request.query.insert(String::from_str("flags"), format_decimal(tag));
                }
            },
            None => {},
        }
        request.body = Some(pair.value.as_str().as_bytes_vec());
        request
    }

    /// The request that takes (`verb` is `acquire`) or gives back (`release`)
    /// the lock on the entry of `pair` for the session that `pair` names.
    fn lock_request(
        &self,
        operation: Operation,
        verb: &str,
        pair: &KVPair,
        options: &Option<QueryOptions>,
    ) -> (r: Result<Request, Error>)
        ensures
            match pair.session {
                Some(session) => r matches Ok(request) && request.consists_of(
                    Method::Put,
                    kv_path(pair.key@),
                    lock_query(*options, pair.flags, verb@, session@),
                    token_of(self.config().token@, *options),
                    Some(payload_bytes(pair.value@)),
                ),
                None => r matches Err(error) && is_missing_session(error, operation, pair.key@),
            },
    {
        match &pair.session {
            Some(session) => {
                let mut request = self.write_request(pair, options);
                request.query.insert(String::from_str(verb), session.clone());
                Ok(request)
            },
            None => Err(Error::MissingSession { operation, subject: pair.key.clone() }),
        }
    }
}

impl KV for Client {
    open spec fn config(&self) -> Config {
        Client::config(self)
    }

    fn acquire_entry(&self, pair: &KVPair, options: Option<QueryOptions>) -> (r: Result<
        Request,
        Error,
    >) {
        self.lock_request(Operation::KvAcquire, "acquire", pair, &options)
    }

    fn delete_entry(&self, key: &str, recursive: bool, options: Option<QueryOptions>) -> (request:
        Request) {
        let mut request = self.request(Method::Delete, join("/v1/kv/", key), &options);
        if recursive {
            request.query.insert(String::from_str("recurse"), String::from_str(""));
        }
        request
    }

    fn get_entry(&self, key: &str, options: Option<QueryOptions>) -> (request: Request) {
        self.request(Method::Get, join("/v1/kv/", key), &options)
    }

    fn list_entries(&self, prefix: &str, options: Option<QueryOptions>) -> (request: Request) {
        let mut request = self.request(Method::Get, join("/v1/kv/", prefix), &options);
        request.query.insert(String::from_str("recurse"), String::from_str(""));
        request
    }

    fn put_entry(&self, pair: &KVPair, options: Option<QueryOptions>) -> (request: Request) {
        self.write_request(pair, &options)
    }

    fn release_entry(&self, pair: &KVPair, options: Option<QueryOptions>) -> (r: Result<
        Request,
        Error,
    >) {
        self.lock_request(Operation::KvRelease, "release", pair, &options)
    }
}

/// A read of a key that the store has no entry for is answered with a status
/// of 404, and decodes to "no entry", with the index that the answer
/// carries: never to an error.
pub proof fn lemma_absent_is_no_error(response: Response, parsed: Option<Vec<KVPair>>)
    requires
        response.status == 404,
        carried_index(response.headers@) is Some,
    ensures
        get_outcome(response, parsed) == Ok::<(Option<KVPair>, u64), Fault>(
            (None, carried_index(response.headers@)->0),
        ),
{
}

/// A read of a prefix that is answered without a body, as it is where no key
/// begins with the prefix, decodes to the empty list: never to an error,
/// whatever the body could or could not be read as.
pub proof fn lemma_empty_body_is_the_empty_list(response: Response, parsed: Option<Vec<KVPair>>)
    requires
        200 <= response.status <= 299 || response.status == 404,
        response.body@.len() == 0,
        carried_index(response.headers@) is Some,
    ensures
        list_outcome(response, parsed) == Ok::<(Seq<KVPair>, u64), Fault>(
            (Seq::empty(), carried_index(response.headers@)->0),
        ),
{
}

fn decode_error(operation: Operation, subject: &str, fault: Fault) -> (error: Error)
    ensures
        is_decode_error(error, operation, subject@, fault),
{
    Error::Decode { operation, subject: String::from_str(subject), fault }
}

/// Decodes the answer to a write: `true` where the store did what was asked,
/// `false` where it declined.
pub fn decode_flag(operation: Operation, subject: &str, response: &Response) -> (r: Result<
    bool,
    Error,
>)
    ensures
        match flag_outcome(*response) {
            Ok(flag) => r == Ok::<bool, Error>(flag),
            Err(fault) => r matches Err(error) && is_decode_error(
                error,
                operation,
                subject@,
                fault,
            ),
        },
{
    if !response.is_success() {
        return Err(decode_error(operation, subject, Fault::UnexpectedStatus(response.status)));
    }
    match response.flag() {
        Some(flag) => Ok(flag),
        None => Err(decode_error(operation, subject, Fault::MalformedBody)),
    }
}

/// Decodes the answer to a read into the list of its items and the store's
/// index. `parsed` is the body read as a list of items, `None` where it is no
/// such list; it is looked at only where the answer has a body to read.
pub fn decode_read<T>(
    operation: Operation,
    subject: &str,
    response: &Response,
    parsed: Option<Vec<T>>,
) -> (r: Result<Indexed<Vec<T>>, Error>)
    ensures
        match read_outcome(*response, parsed) {
            Ok((items, index)) => r matches Ok(got) && got.value@ == items && got.index == index,
            Err(fault) => r matches Err(error) && is_decode_error(
                error,
                operation,
                subject@,
                fault,
            ),
        },
{
    let served = response.is_success();
    if !served && !response.is_not_found() {
        return Err(decode_error(operation, subject, Fault::UnexpectedStatus(response.status)));
    }
    let index = match response.index() {
        Some(index) => index,
        None => {
            return Err(decode_error(operation, subject, Fault::MissingIndex));
        },
    };
    if served && response.body.len() > 0 {
        match parsed {
            Some(items) => Ok(Indexed { value: items, index }),
            None => Err(decode_error(operation, subject, Fault::MalformedBody)),
        }
    } else {
        Ok(Indexed { value: Vec::new(), index })
    }
}

/// Decodes the answer to the read of one key: the entry, or nothing where
/// the key was never written or was deleted. That there is no entry is no
/// error.
pub fn decode_get(key: &str, response: &Response, parsed: Option<Vec<KVPair>>) -> (r: Result<
    Indexed<Option<KVPair>>,
    Error,
>)
    ensures
        match get_outcome(*response, parsed) {
            Ok((entry, index)) => r matches Ok(got) && got.value == entry && got.index == index,
            Err(fault) => r matches Err(error) && is_decode_error(
                error,
                Operation::KvGet,
                key@,
                fault,
            ),
        },
{
    match decode_read(Operation::KvGet, key, response, parsed) {
        Ok(read) => {
            let Indexed { value: mut entries, index } = read;
            if entries.len() == 0 {
                Ok(Indexed { value: None, index })
            } else {
                let entry = entries.swap_remove(0);
                if entry.is_well_formed() {
                    Ok(Indexed { value: Some(entry), index })
                } else {
                    Err(decode_error(Operation::KvGet, key, Fault::MalformedBody))
                }
            }
        },
        Err(error) => Err(error),
    }
}

/// Decodes the answer to the read of a prefix: the entries below it, in the
/// order of the answer. An answer without a body is the empty list.
pub fn decode_list(prefix: &str, response: &Response, parsed: Option<Vec<KVPair>>) -> (r: Result<
    Indexed<Vec<KVPair>>,
    Error,
>)
    ensures
        match list_outcome(*response, parsed) {
            Ok((entries, index)) => r matches Ok(got) && got.value@ == entries && got.index
                == index,
            Err(fault) => r matches Err(error) && is_decode_error(
                error,
                Operation::KvList,
                prefix@,
                fault,
            ),
        },
{
    match decode_read(Operation::KvList, prefix, response, parsed) {
        Ok(read) => {
            let mut i: usize = 0;
            while i < read.value.len()
                invariant
                    i <= read.value.len(),
                    read_outcome(*response, parsed) matches Ok((items, index)) && read.value@
                        == items && read.index == index,
                    forall|j: int| 0 <= j < i ==> (#[trigger] read.value@[j])@.well_formed(),
                decreases read.value.len() - i,
            {
                if !read.value[i].is_well_formed() {
                    return Err(decode_error(Operation::KvList, prefix, Fault::MalformedBody));
                }
                i = i + 1;
            }
            Ok(read)
        },
        Err(error) => Err(error),
    }
}

} // verus!
