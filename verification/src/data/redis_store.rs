//! What is written to a Redis store for a task execution, and how the
//! failures of the store are reported.

use crate::internal::scheduler::ExecuteRequest;
use crate::utils::error::SchedulerError;
use crate::utils::text::chars_of;
use vstd::prelude::*;
use vstd::string::StringExecFns;
use vstd::string::StrSliceExecFns;

verus! {

/// The text that `to_string` of the `protobuf` crate gives for a message of
/// type `Any` that holds this type URL, this value and nothing else. The
/// crate prints the two fields in its text format, with their names and
/// with the contents quoted and escaped.
pub uninterp spec fn any_text(type_url: Seq<char>, value: Seq<u8>) -> Seq<char>;

/// Writes a payload in the text format of the `protobuf` crate: makes an
/// empty `protobuf::well_known_types::any::Any`, sets its two fields and
/// calls its `to_string`. Nothing is proved of the text: the contract only
/// gives it its name, which rests on the text being a function of the two
/// fields alone.
#[verifier::external_body]
fn any_to_text(type_url: &String, value: &Vec<u8>) -> (r: String)
    ensures
        r@ == any_text(type_url@, value@),
{
    let mut val = protobuf::well_known_types::any::Any::new();
    val.type_url = type_url.clone();
    val.value = value.clone();
    val.to_string()
}

/// One write to a hash of the store: the key of the hash, the field, and
/// the value.
#[derive(Debug, PartialEq, Eq)]
pub struct HashWrite {
    pub key: String,
    pub field: String,
    pub value: String,
}

/// `s` without its double quotes.
pub open spec fn unquoted(s: Seq<char>) -> Seq<char>
    decreases s.len(),
{
    if s.len() == 0 {
        Seq::empty()
    } else if s.last() == '"' {
        unquoted(s.drop_last())
    } else {
        unquoted(s.drop_last()).push(s.last())
    }
}

/// The host of the store as the configuration gives it, without the double
/// quotes that it may be wrapped in.
pub fn clean_host(redis_url: &str) -> (r: String)
    ensures
        r@ == unquoted(redis_url@),
{
    let chars = chars_of(redis_url);
    let n = chars.len();
    let mut out = String::new();
    let mut start: usize = 0;
    let mut i: usize = 0;
    assert(out@ + redis_url@.subrange(0, 0) =~= unquoted(redis_url@.subrange(0, 0)));
    while i < n
        invariant
            0 <= start <= i <= n,
            n == redis_url@.len(),
            chars@ == redis_url@,
            out@ + redis_url@.subrange(start as int, i as int) == unquoted(
                redis_url@.subrange(0, i as int),
            ),
        decreases n - i,
    {
        let ghost head = redis_url@.subrange(0, i as int);
        let ghost next = redis_url@.subrange(0, i + 1);
        proof {
            assert(next.drop_last() =~= head);
            assert(next.last() == chars@[i as int]);
        }
        if chars[i] == '"' {
            out.append(redis_url.substring_char(start, i));
            start = i + 1;
            assert(out@ + redis_url@.subrange(start as int, i + 1) =~= unquoted(next));
        } else {
            assert(out@ + redis_url@.subrange(start as int, i + 1) =~= (out@
                + redis_url@.subrange(start as int, i as int)).push(chars@[i as int]));
        }
        i = i + 1;
    }
    out.append(redis_url.substring_char(start, n));
    assert(redis_url@.subrange(0, n as int) =~= redis_url@);
    out
}

/// The text of the error for a request without a task.
pub open spec fn task_absent() -> Seq<char> {
    "Task is missing in ExecuteRequest"@
}

/// The text of the error for a task without a payload.
pub open spec fn payload_absent() -> Seq<char> {
    "Payload is missing in Task"@
}

/// What is written to the store for the execution `execute`: under the key
/// of the task, the field `execution` gets the payload in text form. A
/// request without a task or a task without a payload is an error.
pub fn add_task_execution(execute: &ExecuteRequest) -> (r: Result<HashWrite, SchedulerError>)
    ensures
        match execute@.task {
            None => r matches Err(e) && e is DataLayerError && e.message() == task_absent(),
            Some(task) => match task.payload {
                None => r matches Err(e) && e is DataLayerError && e.message() == payload_absent(),
                Some(payload) => r matches Ok(write) && write.key@ == "task:"@ + task.id
                    && write.field@ == "execution"@ && write.value@ == any_text(
                    payload.type_url,
                    payload.value,
                ),
            },
        },
{
    let task = match &execute.task {
        Some(task) => task,
        None => {
            return Err(
                SchedulerError::DataLayerError(
                    String::from_str("Task is missing in ExecuteRequest"),
                ),
            );
        },
    };
    let payload = match &task.payload {
        Some(payload) => payload,
        None => {
            return Err(
                SchedulerError::DataLayerError(String::from_str("Payload is missing in Task")),
            );
        },
    };
    Ok(
        HashWrite {
            key: String::from_str("task:").concat(task.id.as_str()),
            field: String::from_str("execution"),
            value: any_to_text(&payload.type_url, &payload.value),
        },
    )
}

/// The error for a store at `host` that refuses the address, with the
/// store's own words.
pub fn open_failed(host: &str, detail: &str) -> (e: SchedulerError)
    ensures
        e is DataLayerError,
        e.message() == "Error when calling redis host: "@ + host@ + " "@ + detail@,
{
    SchedulerError::DataLayerError(
        String::from_str("Error when calling redis host: ").concat(host).concat(" ").concat(
            detail,
        ),
    )
}

/// The error for a store at `host` that cannot be reached.
pub fn connect_failed(host: &str) -> (e: SchedulerError)
    ensures
        e is DataLayerError,
        e.message() == "Unable to connect to redis host: "@ + host@,
{
    SchedulerError::DataLayerError(
        String::from_str("Unable to connect to redis host: ").concat(host),
    )
}

/// The error for a write that the store refused.
pub fn write_failed() -> (e: SchedulerError)
    ensures
        e is DataLayerError,
        e.message() == "Failed to add task execution"@,
{
    SchedulerError::DataLayerError(String::from_str("Failed to add task execution"))
}

} // verus!
