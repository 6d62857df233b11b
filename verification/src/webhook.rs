use vstd::prelude::*;

use crate::error::{ErrorStatus, WorkerError};
use crate::json::{json_member, json_member_of, json_str_member, json_str_member_of};
use crate::text::{decimal, decimal_string, str_eq};

verus! {

/// The HTTP methods a webhook job may use.
#[derive(Debug, Clone, Copy, PartialEq, Eq, Structural)]
pub enum WebhookMethod {
    Post,
    Put,
    Patch,
}

/// A webhook call ready to be sent: where, how, and the JSON body.
#[derive(Debug)]
pub struct WebhookRequest {
    pub url: String,
    pub method: WebhookMethod,
    pub body: serde_json::Value,
}

/// The method named by a webhook payload: `POST` when none is given.
pub open spec fn webhook_method_of(method: Option<Seq<char>>) -> Option<WebhookMethod> {
    match method {
        None => Some(WebhookMethod::Post),
        Some(m) => if m == "POST"@ {
            Some(WebhookMethod::Post)
        } else if m == "PUT"@ {
            Some(WebhookMethod::Put)
        } else if m == "PATCH"@ {
            Some(WebhookMethod::Patch)
        } else {
            None
        },
    }
}

pub open spec fn opt_view(s: Option<String>) -> Option<Seq<char>> {
    match s {
        Some(v) => Some(v@),
        None => None,
    }
}

/// A webhook may use `POST` (also when no method is named), `PUT` or
/// `PATCH`, each by its upper-case name.
pub proof fn lemma_webhook_method_names()
    ensures
        webhook_method_of(None) == Some(WebhookMethod::Post),
        webhook_method_of(Some("POST"@)) == Some(WebhookMethod::Post),
        webhook_method_of(Some("PUT"@)) == Some(WebhookMethod::Put),
        webhook_method_of(Some("PATCH"@)) == Some(WebhookMethod::Patch),
        forall|m: Seq<char>| m != "POST"@ && m != "PUT"@ && m != "PATCH"@
            ==> #[trigger] webhook_method_of(Some(m)) is None,
{
    reveal_strlit("POST");
    reveal_strlit("PUT");
    reveal_strlit("PATCH");
    assert("POST"@ != "PUT"@) by {
        assert("POST"@[1] != "PUT"@[1]);
    }
    assert("POST"@ != "PATCH"@) by {
        assert("POST"@[1] != "PATCH"@[1]);
    }
    assert("PUT"@ != "PATCH"@) by {
        assert("PUT"@.len() != "PATCH"@.len());
    }
}

/// Checks the `url` and `method` members of a webhook payload. A payload
/// without a string `url` is refused with a permanent "Invalid url"; a
/// method other than `POST`, `PUT` or `PATCH` with a permanent
/// "Invalid method"; a missing method means `POST`.
pub fn plan_webhook(url: Option<String>, method: Option<String>) -> (r: Result<(String, WebhookMethod), WorkerError>)
    ensures
        url is None ==> (r matches Err(e) && e.status == ErrorStatus::Permanent
            && e.message@ == "Invalid url"@ && e.source is None),
        url is Some && webhook_method_of(opt_view(method)) is None ==> (r matches Err(e)
            && e.status == ErrorStatus::Permanent && e.message@ == "Invalid method"@
            && e.source is None),
        (url is Some && webhook_method_of(opt_view(method)) is Some) ==> (r matches Ok(p)
            && p.0 == url->Some_0 && p.1 == webhook_method_of(opt_view(method))->Some_0),
        (url is Some && method is None) ==> (r matches Ok(p) && p.1 == WebhookMethod::Post),
        (url is Some && opt_view(method) == Some("POST"@)) ==> (r matches Ok(p)
            && p.1 == WebhookMethod::Post),
        (url is Some && opt_view(method) == Some("PUT"@)) ==> (r matches Ok(p)
            && p.1 == WebhookMethod::Put),
        (url is Some && opt_view(method) == Some("PATCH"@)) ==> (r matches Ok(p)
            && p.1 == WebhookMethod::Patch),
        (url is Some && method is Some && method->Some_0@ != "POST"@
            && method->Some_0@ != "PUT"@ && method->Some_0@ != "PATCH"@) ==> (r matches Err(e) && e.message@ == "Invalid method"@
            && e.status == ErrorStatus::Permanent),
{
    proof {
        lemma_webhook_method_names();
    }
    let url = match url {
        Some(u) => u,
        None => {
            return Err(WorkerError::permanent("Invalid url"));
        },
    };
    let method = match method {
        None => WebhookMethod::Post,
        Some(m) => {
            if str_eq(m.as_str(), "POST") {
                WebhookMethod::Post
            } else if str_eq(m.as_str(), "PUT") {
                WebhookMethod::Put
            } else if str_eq(m.as_str(), "PATCH") {
                WebhookMethod::Patch
            } else {
                return Err(WorkerError::permanent("Invalid method"));
            }
        },
    };
    Ok((url, method))
}

/// Reads a webhook job's payload: its `url`, `method` and `body` members,
/// checked as `plan_webhook` does.
pub fn webhook_request(payload: &serde_json::Value) -> (r: Result<WebhookRequest, WorkerError>)
    ensures
        ({
            let url = json_str_member_of(*payload, "url"@);
            let method = webhook_method_of(json_str_member_of(*payload, "method"@));
            &&& url is None ==> (r matches Err(e) && e.status == ErrorStatus::Permanent
                && e.message@ == "Invalid url"@ && e.source is None)
            &&& (url is Some && method is None) ==> (r matches Err(e)
                && e.status == ErrorStatus::Permanent && e.message@ == "Invalid method"@
                && e.source is None)
            &&& (url is Some && method is Some) ==> (r matches Ok(req)
                && req.url@ == url->Some_0 && req.method == method->Some_0
                && req.body == json_member_of(*payload, "body"@))
        }),
{
    let url = json_str_member(payload, "url");
    let method = json_str_member(payload, "method");
    let (url, method) = plan_webhook(url, method)?;
    let body = json_member(payload, "body");
    Ok(WebhookRequest { url, method, body })
}

/// How a webhook call ended, by the HTTP status of its response.
pub open spec fn is_success_status(status: u16) -> bool {
    200 <= status < 300
}

pub open spec fn is_temporary_failure_status(status: u16) -> bool {
    status == 429 || (500 <= status < 600)
}

/// A response succeeds exactly on a 2xx status; it is a temporary failure
/// exactly on 429 (too many requests) or a 5xx status (server error); every
/// other status is a permanent failure.
pub proof fn webhook_status_classes(status: u16)
    ensures
        is_success_status(status) <==> 200 <= status <= 299,
        is_temporary_failure_status(status) <==> (status == 429 || 500 <= status <= 599),
        is_success_status(status) ==> !is_temporary_failure_status(status),
        status == 200 || status == 201 || status == 204 ==> is_success_status(status),
        status == 500 || status == 502 || status == 503 ==> is_temporary_failure_status(status),
        status == 400 || status == 404 || status == 302 ==> !is_success_status(status)
            && !is_temporary_failure_status(status),
{
}

/// The error for a webhook response with status `status`, or `None` when
/// the status is a success (2xx). Too many requests (429) and server
/// errors (5xx) are temporary; every other status is permanent.
pub fn webhook_status_error(status: u16) -> (r: Option<WorkerError>)
    ensures
        200 <= status < 300 <==> r is None,
        (status == 429 || 500 <= status < 600) ==> (r matches Some(e)
            && e.status == ErrorStatus::Temporary),
        (!(200 <= status < 300) && status != 429 && !(500 <= status < 600)) ==> (r matches Some(e)
            && e.status == ErrorStatus::Permanent),
        is_success_status(status) <==> r is None,
        r matches Some(e) ==> {
            &&& e.source is None
            &&& is_temporary_failure_status(status) ==> (e.status == ErrorStatus::Temporary
                && e.message@ == "Got a temporary failure status: "@ + decimal(status as nat))
            &&& !is_temporary_failure_status(status) ==> (e.status == ErrorStatus::Permanent
                && e.message@ == "Got a permanent failure status: "@ + decimal(status as nat))
        },
{
    if 200 <= status && status < 300 {
        None
    } else if status == 429 || (500 <= status && status < 600) {
        let msg = String::from_str("Got a temporary failure status: ").concat(decimal_string(status as u64).as_str());
        Some(WorkerError::temporary(msg.as_str()))
    } else {
        let msg = String::from_str("Got a permanent failure status: ").concat(decimal_string(status as u64).as_str());
        Some(WorkerError::permanent(msg.as_str()))
    }
}

/// The error for a successful webhook response whose body is not JSON.
pub fn webhook_decode_error(source: anyhow::Error) -> (e: WorkerError)
    ensures
        e.status == ErrorStatus::Permanent,
        e.message@ == "Failed to deserialize webhook response"@,
        e.source == Some(source),
{
    WorkerError::permanent("Failed to deserialize webhook response").set_source(source)
}

/// The kinds of failure a webhook call can end in before any response.
#[derive(Debug, Clone, Copy, PartialEq, Eq, Structural)]
pub enum TransportFailure {
    Connect,
    Timeout,
    Decode,
    Redirect,
    Other,
}

/// Classifies a failed call by the first of its flags that is set, in the
/// order connect, timeout, decode, redirect.
pub fn transport_failure(is_connect: bool, is_timeout: bool, is_decode: bool, is_redirect: bool) -> (f: TransportFailure)
    ensures
        f == (if is_connect {
            TransportFailure::Connect
        } else if is_timeout {
            TransportFailure::Timeout
        } else if is_decode {
            TransportFailure::Decode
        } else if is_redirect {
            TransportFailure::Redirect
        } else {
            TransportFailure::Other
        }),
{
    if is_connect {
        TransportFailure::Connect
    } else if is_timeout {
        TransportFailure::Timeout
    } else if is_decode {
        TransportFailure::Decode
    } else if is_redirect {
        TransportFailure::Redirect
    } else {
        TransportFailure::Other
    }
}

/// Connection failures, timeouts and unknown failures are worth retrying;
/// a body that cannot be decoded or a redirect is not.
pub open spec fn transport_failure_status(f: TransportFailure) -> ErrorStatus {
    match f {
        TransportFailure::Decode | TransportFailure::Redirect => ErrorStatus::Permanent,
        _ => ErrorStatus::Temporary,
    }
}

pub open spec fn transport_failure_message(f: TransportFailure) -> Seq<char> {
    match f {
        TransportFailure::Connect => "Connection error"@,
        TransportFailure::Timeout => "Request got timed out"@,
        TransportFailure::Decode => "Failed to deserialize webhook response"@,
        TransportFailure::Redirect => "Redirected so misconfigured url"@,
        TransportFailure::Other => "Unknown error"@,
    }
}

/// The error for a webhook call that failed with `failure`, keeping
/// `source` as its cause.
pub fn transport_error(failure: TransportFailure, source: anyhow::Error) -> (e: WorkerError)
    ensures
        e.status == transport_failure_status(failure),
        e.message@ == transport_failure_message(failure),
        e.source == Some(source),
        failure == TransportFailure::Connect ==> e.status == ErrorStatus::Temporary
            && e.message@ == "Connection error"@,
        failure == TransportFailure::Timeout ==> e.status == ErrorStatus::Temporary
            && e.message@ == "Request got timed out"@,
        failure == TransportFailure::Decode ==> e.status == ErrorStatus::Permanent
            && e.message@ == "Failed to deserialize webhook response"@,
        failure == TransportFailure::Redirect ==> e.status == ErrorStatus::Permanent
            && e.message@ == "Redirected so misconfigured url"@,
        failure == TransportFailure::Other ==> e.status == ErrorStatus::Temporary
            && e.message@ == "Unknown error"@,
{
    let e = match failure {
        TransportFailure::Connect => WorkerError::temporary("Connection error"),
        TransportFailure::Timeout => WorkerError::temporary("Request got timed out"),
        TransportFailure::Decode => WorkerError::permanent("Failed to deserialize webhook response"),
        TransportFailure::Redirect => WorkerError::permanent("Redirected so misconfigured url"),
        TransportFailure::Other => WorkerError::temporary("Unknown error"),
    };
    e.set_source(source)
}

} // verus!
