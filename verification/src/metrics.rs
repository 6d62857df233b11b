use vstd::prelude::*;

use crate::text::str_eq;

verus! {

/// The HTTP methods the server's routes answer, as recorded in request
/// metrics.
#[allow(non_camel_case_types)]
#[derive(Debug, Clone, Copy, PartialEq, Eq, Structural)]
pub enum HttpMethod {
    GET,
    POST,
    PUT,
    DELETE,
}

/// The labels under which one request is counted and timed.
#[derive(Debug)]
pub struct HttpLabel {
    pub method: HttpMethod,
    pub path: String,
}

pub open spec fn method_named(name: Seq<char>) -> Option<HttpMethod> {
    if name == "GET"@ {
        Some(HttpMethod::GET)
    } else if name == "POST"@ {
        Some(HttpMethod::POST)
    } else if name == "PUT"@ {
        Some(HttpMethod::PUT)
    } else if name == "DELETE"@ {
        Some(HttpMethod::DELETE)
    } else {
        None
    }
}

/// Each metric method is named by its upper-case HTTP name, and those
/// names are distinct.
pub proof fn lemma_method_names()
    ensures
        method_named("GET"@) == Some(HttpMethod::GET),
        method_named("POST"@) == Some(HttpMethod::POST),
        method_named("PUT"@) == Some(HttpMethod::PUT),
        method_named("DELETE"@) == Some(HttpMethod::DELETE),
{
    reveal_strlit("GET");
    reveal_strlit("POST");
    reveal_strlit("PUT");
    reveal_strlit("DELETE");
    assert("POST"@ != "GET"@) by {
        assert("POST"@.len() != "GET"@.len());
    }
    assert("PUT"@ != "GET"@) by {
        assert("PUT"@[0] != "GET"@[0]);
    }
    assert("PUT"@ != "POST"@) by {
        assert("PUT"@.len() != "POST"@.len());
    }
    assert("DELETE"@ != "GET"@ && "DELETE"@ != "POST"@ && "DELETE"@ != "PUT"@) by {
        assert("DELETE"@[0] != "GET"@[0]);
        assert("DELETE"@[0] != "POST"@[0]);
        assert("DELETE"@[0] != "PUT"@[0]);
    }
}

/// The metric method for an HTTP method name; `None` for a method that no
/// route serves.
pub fn http_method_from_name(name: &str) -> (m: Option<HttpMethod>)
    ensures
        m == method_named(name@),
        name@ == "GET"@ ==> m == Some(HttpMethod::GET),
        name@ == "POST"@ ==> m == Some(HttpMethod::POST),
        name@ == "PUT"@ ==> m == Some(HttpMethod::PUT),
        name@ == "DELETE"@ ==> m == Some(HttpMethod::DELETE),
        (name@ != "GET"@ && name@ != "POST"@ && name@ != "PUT"@ && name@ != "DELETE"@)
            ==> m is None,
{
    proof {
        lemma_method_names();
    }
    if str_eq(name, "GET") {
        Some(HttpMethod::GET)
    } else if str_eq(name, "POST") {
        Some(HttpMethod::POST)
    } else if str_eq(name, "PUT") {
        Some(HttpMethod::PUT)
    } else if str_eq(name, "DELETE") {
        Some(HttpMethod::DELETE)
    } else {
        None
    }
}

/// The labels for a request with method `method_name` on `path`, or `None`
/// when the method is not one the metrics know.
pub fn request_label(method_name: &str, path: String) -> (l: Option<HttpLabel>)
    ensures
        method_named(method_name@) is None <==> l is None,
        l matches Some(label) ==> label.method == method_named(method_name@)->Some_0
            && label.path == path,
{
    match http_method_from_name(method_name) {
        Some(method) => Some(HttpLabel { method, path }),
        None => None,
    }
}

} // verus!
