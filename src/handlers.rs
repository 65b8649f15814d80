use vstd::prelude::*;

use crate::backend::{classify_error, kind_is_not_found, KvError};
use crate::response::{status_code, Response, Status};

verus! {

/// What a single-key fetch gave, with each value seen as its bytes.
pub open spec fn fetch_view(fetched: Result<Option<Vec<u8>>, KvError>) -> Result<Option<Seq<u8>>, KvError> {
    match fetched {
        Ok(Some(v)) => Ok(Some(v@)),
        Ok(None) => Ok(None),
        Err(e) => Err(e),
    }
}

/// A key route's answer, with the body seen as its bytes.
pub open spec fn answer_view(r: Result<Vec<u8>, Status>) -> Result<Seq<u8>, Status> {
    match r {
        Ok(v) => Ok(v@),
        Err(s) => Err(s),
    }
}

/// The answer that the key route owes for what the fetch gave: the value
/// itself; not found for a key without a value or a backend that says so;
/// an internal error, with no detail, for any other failure.
pub open spec fn key_outcome(fetched: Result<Option<Seq<u8>>, KvError>) -> Result<Seq<u8>, Status> {
    match fetched {
        Ok(Some(v)) => Ok(v),
        Ok(None) => Err(Status::NotFound),
        Err(KvError::NotFound) => Err(Status::NotFound),
        Err(KvError::Upstream) => Err(Status::InternalServerError),
    }
}

/// The status that an answer of the key route goes out with.
pub open spec fn outcome_status(answer: Result<Seq<u8>, Status>) -> Status {
    match answer {
        Ok(_) => Status::Success,
        Err(s) => s,
    }
}

/// What a single-key fetch gives when the backend holds `store` and answers.
pub open spec fn fetch_from(store: Map<Seq<char>, Seq<u8>>, key: Seq<char>) -> Result<Option<Seq<u8>>, KvError> {
    if store.contains_key(key) {
        Ok(Some(store[key]))
    } else {
        Ok(None)
    }
}

/// The liveness route: success with the body `OK`, whatever state the backend is in.
pub fn health_check() -> (r: Response)
    ensures
        r.status == Status::Success,
        r.body@ == seq!['O', 'K'],
{
    let body = "OK".to_owned();
    proof {
        reveal_strlit("OK");
    }
    Response { status: Status::Success, body }
}

/// The backend ping route: success, with the backend's reply as the body, unchanged.
pub fn ping(reply: String) -> (r: Response)
    ensures
        r.status == Status::Success,
        r.body@ == reply@,
{
    Response { status: Status::Success, body: reply }
}

/// The key route's answer for a fetch already sorted into the two failure classes.
pub fn key_response(fetched: Result<Option<Vec<u8>>, KvError>) -> (r: Result<Vec<u8>, Status>)
    ensures
        answer_view(r) == key_outcome(fetch_view(fetched)),
{
    match fetched {
        Ok(Some(v)) => Ok(v),
        Ok(None) => Err(Status::NotFound),
        Err(KvError::NotFound) => Err(Status::NotFound),
        Err(KvError::Upstream) => Err(Status::InternalServerError),
    }
}

/// The key route's answer for what the backend client gave back.
pub fn get_key_value(fetched: Result<Option<Vec<u8>>, fred::error::Error>) -> (r: Result<Vec<u8>, Status>)
    ensures
        match fetched {
            Ok(Some(v)) => answer_view(r) == Ok::<Seq<u8>, Status>(v@),
            Ok(None) => r == Err::<Vec<u8>, Status>(Status::NotFound),
            Err(e) => r == (if kind_is_not_found(e) {
                Err::<Vec<u8>, Status>(Status::NotFound)
            } else {
                Err::<Vec<u8>, Status>(Status::InternalServerError)
            }),
        },
{
    let sorted = match fetched {
        Ok(v) => Ok(v),
        Err(e) => Err(classify_error(&e)),
    };
    key_response(sorted)
}

/// A key that holds a value is answered with success and exactly that value.
pub proof fn lemma_present_key_served(store: Map<Seq<char>, Seq<u8>>, key: Seq<char>)
    requires
        store.contains_key(key),
    ensures
        key_outcome(fetch_from(store, key)) == Ok::<Seq<u8>, Status>(store[key]),
        status_code(outcome_status(key_outcome(fetch_from(store, key)))) == 200,
{
}

/// A key that holds no value is answered with not found.
pub proof fn lemma_absent_key_not_found(store: Map<Seq<char>, Seq<u8>>, key: Seq<char>)
    requires
        !store.contains_key(key),
    ensures
        key_outcome(fetch_from(store, key)) == Err::<Seq<u8>, Status>(Status::NotFound),
        status_code(outcome_status(key_outcome(fetch_from(store, key)))) == 404,
{
}

/// The answer for a key depends on that key's entry alone: two backends that
/// agree on it give the same answer, whatever else they hold.
pub proof fn lemma_answer_depends_on_own_key(
    s1: Map<Seq<char>, Seq<u8>>,
    s2: Map<Seq<char>, Seq<u8>>,
    key: Seq<char>,
)
    requires
        s1.contains_key(key) == s2.contains_key(key),
        s1.contains_key(key) ==> s1[key] == s2[key],
    ensures
        key_outcome(fetch_from(s1, key)) == key_outcome(fetch_from(s2, key)),
{
}

/// Requests for many stored keys are each answered with their own value.
pub proof fn lemma_many_keys_each_served(store: Map<Seq<char>, Seq<u8>>, keys: Seq<Seq<char>>)
    requires
        forall|i: int| 0 <= i < keys.len() ==> store.contains_key(#[trigger] keys[i]),
    ensures
        forall|i: int|
            0 <= i < keys.len() ==> key_outcome(fetch_from(store, #[trigger] keys[i]))
                == Ok::<Seq<u8>, Status>(store[keys[i]]),
{
}

} // verus!
