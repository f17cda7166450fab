//! Routing a REST call `/api/{plugin}/{resource}` to a plugin's resource.
use vstd::prelude::*;
use crate::text::{owned, str_eq};
use crate::plugins::registry::{PluginBinding, PluginRegistry};

verus! {

/// The HTTP methods plugins serve.
#[derive(PartialEq, Eq, Structural, Clone, Copy)]
pub enum HttpMethod {
    Get,
    Post,
    Put,
    Delete,
}

/// The method an HTTP method name denotes, when plugins serve it.
pub open spec fn method_named(s: Seq<char>) -> Option<HttpMethod> {
    if s == "GET"@ {
        Some(HttpMethod::Get)
    } else if s == "POST"@ {
        Some(HttpMethod::Post)
    } else if s == "PUT"@ {
        Some(HttpMethod::Put)
    } else if s == "DELETE"@ {
        Some(HttpMethod::Delete)
    } else {
        None
    }
}

/// The method an HTTP method name denotes, when plugins serve it.
pub fn parse_http_method(s: &str) -> (r: Option<HttpMethod>)
    ensures
        r == method_named(s@),
{
    if str_eq(s, "GET") {
        Some(HttpMethod::Get)
    } else if str_eq(s, "POST") {
        Some(HttpMethod::Post)
    } else if str_eq(s, "PUT") {
        Some(HttpMethod::Put)
    } else if str_eq(s, "DELETE") {
        Some(HttpMethod::Delete)
    } else {
        None
    }
}

/// A REST resource a plugin advertises.
pub struct ApiResource {
    /// Path relative to the plugin, such as `network`.
    pub path: String,
    /// The methods it lists, in order.
    pub supported_methods: Vec<HttpMethod>,
}

/// Whether a resource's method list admits `m`: exactly when it lists `m`.
pub fn method_supported(ms: &Vec<HttpMethod>, m: HttpMethod) -> (r: bool)
    ensures
        r == ms@.contains(m),
{
    let n = ms.len();
    let mut i: usize = 0;
    while i < n
        invariant
            n == ms@.len(),
            i <= n,
            forall|j: int| 0 <= j < i ==> ms@[j] != m,
        decreases n - i,
    {
        if ms[i] == m {
            assert(ms@[i as int] == m);
            return true;
        }
        i += 1;
    }
    false
}

/// The position of the first resource whose path is `path`.
pub open spec fn resource_index(rs: Seq<ApiResource>, path: Seq<char>) -> Option<int> {
    if exists|i: int| 0 <= i < rs.len() && (#[trigger] rs[i]).path@ == path {
        Some(choose|i: int| 0 <= i < rs.len() && rs[i].path@ == path && forall|j: int| 0 <= j < i ==> (#[trigger] rs[j]).path@ != path)
    } else {
        None
    }
}

/// A call is dispatched to the first advertised resource with the requested
/// path: when `select_resource` finds one, it has that path and no earlier
/// resource has it; when it finds none, no resource has it.
pub proof fn law_dispatch_targets_first_match(rs: Seq<ApiResource>, path: Seq<char>)
    ensures
        resource_index(rs, path) matches Some(i) ==> {
            &&& 0 <= i < rs.len()
            &&& rs[i].path@ == path
            &&& forall|j: int| 0 <= j < i ==> (#[trigger] rs[j]).path@ != path
        },
        resource_index(rs, path) is None ==> forall|j: int| 0 <= j < rs.len() ==> (#[trigger] rs[j]).path@ != path,
{
    if exists|i: int| 0 <= i < rs.len() && (#[trigger] rs[i]).path@ == path {
        lemma_first_match_exists(rs, path);
    }
}

proof fn lemma_first_match_exists(rs: Seq<ApiResource>, path: Seq<char>)
    requires
        exists|i: int| 0 <= i < rs.len() && (#[trigger] rs[i]).path@ == path,
    ensures
        exists|i: int| 0 <= i < rs.len() && rs[i].path@ == path && forall|j: int| 0 <= j < i ==> (#[trigger] rs[j]).path@ != path,
    decreases rs.len(),
{
    let k = choose|i: int| 0 <= i < rs.len() && (#[trigger] rs[i]).path@ == path;
    if rs[0].path@ == path {
        assert(forall|j: int| 0 <= j < 0 ==> (#[trigger] rs[j]).path@ != path);
    } else {
        let t = rs.drop_first();
        assert(t[k - 1] == rs[k]);
        lemma_first_match_exists(t, path);
        let m = choose|i: int| 0 <= i < t.len() && t[i].path@ == path && forall|j: int| 0 <= j < i ==> (#[trigger] t[j]).path@ != path;
        assert(rs[m + 1] == t[m]);
        assert forall|j: int| 0 <= j < m + 1 implies (#[trigger] rs[j]).path@ != path by {
            if j > 0 {
                assert(rs[j] == t[j - 1]);
            }
        }
    }
}

/// A refused call: HTTP status and message.
pub struct DispatchRefusal {
    pub status: u16,
    pub message: String,
}

/// The refusal `r` has this status and message.
pub open spec fn refuses(r: DispatchRefusal, status: u16, message: Seq<char>) -> bool {
    r.status == status && r.message@ == message
}

fn refusal(status: u16, message: &str) -> (r: DispatchRefusal)
    ensures
        refuses(r, status, message@),
{
    DispatchRefusal { status, message: owned(message) }
}

/// The first step of a call to `/api/{route}/{resource}`: the plugin registered
/// under the route `route`, and the method the call uses.
pub fn route_plugin_call(registry: &PluginRegistry, route: &str, method: &str) -> (r: Result<
    (PluginBinding, HttpMethod),
    DispatchRefusal,
>)
    ensures
        !registry.by_route().contains_key(route@) ==> (r matches Err(e) && refuses(e, 404, "Plugin not found"@)),
        registry.by_route().contains_key(route@) && method_named(method@) is None ==> (r matches Err(e)
            && refuses(e, 405, "Unsupported method"@)),
        registry.by_route().contains_key(route@) && method_named(method@) is Some ==> (r matches Ok(p) && p.0
            == registry.by_route()[route@] && p.1 == method_named(method@)->0),
{
    let binding = match registry.get_by_route(route) {
        Some(b) => b,
        None => {
            return Err(refusal(404, "Plugin not found"));
        },
    };
    match parse_http_method(method) {
        Some(m) => Ok((binding, m)),
        None => Err(refusal(405, "Unsupported method")),
    }
}

/// The second step of a call: the advertised resource the call addresses, once the
/// method is checked against it.
pub fn select_resource(resources: &Vec<ApiResource>, resource_path: &str, method: HttpMethod) -> (r: Result<
    usize,
    DispatchRefusal,
>)
    ensures
        resources@.len() == 0 ==> (r matches Err(e) && refuses(e, 404, "No API resources found"@)),
        resources@.len() > 0 && resource_index(resources@, resource_path@) is None ==> (r matches Err(e)
            && refuses(e, 404, "Resource not found"@)),
        resources@.len() > 0 && resource_index(resources@, resource_path@) is Some ==> ({
            let i = resource_index(resources@, resource_path@)->0;
            if resources@[i].supported_methods@.contains(method) {
                r matches Ok(k) && k == i
            } else {
                r matches Err(e) && refuses(e, 405, "Method not allowed"@)
            }
        }),
{
    let n = resources.len();
    if n == 0 {
        return Err(refusal(404, "No API resources found"));
    }
    let mut i: usize = 0;
    while i < n && !str_eq(resources[i].path.as_str(), resource_path)
        invariant
            n == resources@.len(),
            i <= n,
            forall|j: int| 0 <= j < i ==> (#[trigger] resources@[j]).path@ != resource_path@,
        decreases n - i,
    {
        i += 1;
    }
    if i == n {
        return Err(refusal(404, "Resource not found"));
    }
    assert(resources@[i as int].path@ == resource_path@);
    let ghost k = resource_index(resources@, resource_path@)->0;
    assert(k == i) by {
        if k < i {
            assert(resources@[k].path@ != resource_path@);
        } else if k > i {
            assert(resources@[i as int].path@ != resource_path@);
        }
    }
    if method_supported(&resources[i].supported_methods, method) {
        Ok(i)
    } else {
        Err(refusal(405, "Method not allowed"))
    }
}

/// The status a plugin's reply is sent with: its own code when that is a valid
/// HTTP status (100 to 999), else 200.
pub fn response_status(code: u16) -> (r: u16)
    ensures
        r == (if 100 <= code <= 999 { code } else { 200 }),
{
    if 100 <= code && code <= 999 {
        code
    } else {
        200
    }
}

/// The name an HTTP request uses for a method.
pub open spec fn method_text(m: HttpMethod) -> Seq<char> {
    match m {
        HttpMethod::Get => "GET"@,
        HttpMethod::Post => "POST"@,
        HttpMethod::Put => "PUT"@,
        HttpMethod::Delete => "DELETE"@,
    }
}

/// Each of the four methods plugins serve is recognised by its own name, and a
/// recognised name is the name of the method it gives: `GET`, `POST`, `PUT` and
/// `DELETE` parse to `Get`, `Post`, `Put` and `Delete`, and nothing else parses.
/// So a call to a registered route with one of these names is routed to the
/// plugin with that method, never refused as unsupported.
pub proof fn law_methods_round_trip(m: HttpMethod, s: Seq<char>)
    ensures
        method_named(method_text(m)) == Some(m),
        method_named(s) matches Some(n) ==> s == method_text(n),
{
    reveal_strlit("GET");
    reveal_strlit("POST");
    reveal_strlit("PUT");
    reveal_strlit("DELETE");
    assert("GET"@.len() == 3 && "PUT"@.len() == 3 && "POST"@.len() == 4 && "DELETE"@.len() == 6);
    assert("GET"@[0] != "PUT"@[0]);
}

} // verus!
