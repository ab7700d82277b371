//! Translating the five secret-gateway intents into HTTP requests: the verb,
//! the URL, the bearer-token header and, for writes only, the enveloped body.

use vstd::prelude::*;
use vstd::string::StringExecFns;

use crate::json::json_text;
use crate::json::to_json_string;
use crate::urls::request_url;
use crate::urls::trim_trailing_slashes;
use crate::urls::v1_url;
use crate::value::Json;
use crate::value::JsonValue;
use crate::value::spec_wrap;
use crate::value::wrap_payload;

verus! {

/// The HTTP verb of a gateway operation. Listing uses the server's
/// non-standard `LIST` verb, not `GET`.
#[derive(Clone, Copy, Debug, PartialEq, Eq, Structural)]
pub enum Method {
    Get,
    Post,
    List,
}

impl Method {
    /// The verb exactly as it goes on the wire.
    pub open spec fn verb_spec(self) -> Seq<char> {
        match self {
            Method::Get => seq!['G', 'E', 'T'],
            Method::Post => seq!['P', 'O', 'S', 'T'],
            Method::List => seq!['L', 'I', 'S', 'T'],
        }
    }

    /// The verb as a string.
    pub fn verb(&self) -> (r: &'static str)
        ensures
            r@ == self.verb_spec(),
    {
        match self {
            Method::Get => {
                proof {
                    reveal_strlit("GET");
                    assert("GET"@ =~= seq!['G', 'E', 'T']);
                }
                "GET"
            },
            Method::Post => {
                proof {
                    reveal_strlit("POST");
                    assert("POST"@ =~= seq!['P', 'O', 'S', 'T']);
                }
                "POST"
            },
            Method::List => {
                proof {
                    reveal_strlit("LIST");
                    assert("LIST"@ =~= seq!['L', 'I', 'S', 'T']);
                }
                "LIST"
            },
        }
    }
}

/// The name of the header that carries the bearer token on every request.
pub open spec fn token_header_name() -> Seq<char> {
    seq!['X', '-', 'V', 'a', 'u', 'l', 't', '-', 'T', 'o', 'k', 'e', 'n']
}

/// The mathematical model of an outbound request.
pub struct RequestModel {
    pub method: Method,
    pub url: Seq<char>,
    /// The single header, as (name, value): the name is always
    /// `token_header_name()`, the value the caller's token, untransformed.
    pub header: (Seq<char>, Seq<char>),
    pub body: Option<Seq<char>>,
}

/// One outbound HTTP request, ready for a transport to send: `method` on
/// `url`, one header `header_name: token`, and `body` if there is one.
pub struct HttpRequest {
    pub method: Method,
    pub url: String,
    pub header_name: String,
    pub token: String,
    pub body: Option<String>,
}

impl View for HttpRequest {
    type V = RequestModel;

    open spec fn view(&self) -> RequestModel {
        RequestModel {
            method: self.method,
            url: self.url@,
            header: (self.header_name@, self.token@),
            body: match self.body {
                Some(b) => Some(b@),
                None => None,
            },
        }
    }
}

/// The request that reads the secret at `path`.
pub open spec fn spec_fetch_secret(base: Seq<char>, token: Seq<char>, path: Seq<char>) -> RequestModel {
    RequestModel {
        method: Method::Get,
        url: v1_url(base, path),
        header: (token_header_name(), token),
        body: None,
    }
}

/// The request that lists the secrets under `path`.
pub open spec fn spec_list_secrets(base: Seq<char>, token: Seq<char>, path: Seq<char>) -> RequestModel {
    RequestModel {
        method: Method::List,
        url: v1_url(base, path),
        header: (token_header_name(), token),
        body: None,
    }
}

/// The request that writes `payload` to the secret at `path`: the one
/// operation with a body, and the body is the enveloped payload.
pub open spec fn spec_save_secret(
    base: Seq<char>,
    token: Seq<char>,
    path: Seq<char>,
    payload: Json,
) -> RequestModel {
    RequestModel {
        method: Method::Post,
        url: v1_url(base, path),
        header: (token_header_name(), token),
        body: Some(json_text(spec_wrap(payload))),
    }
}

/// The logical path of the policy list.
pub open spec fn sys_policy_path() -> Seq<char> {
    seq!['s', 'y', 's', '/', 'p', 'o', 'l', 'i', 'c', 'y']
}

/// The request that lists the server's policies.
pub open spec fn spec_list_policies(base: Seq<char>, token: Seq<char>) -> RequestModel {
    RequestModel {
        method: Method::Get,
        url: v1_url(base, sys_policy_path()),
        header: (token_header_name(), token),
        body: None,
    }
}

/// The request that reads the policy called `name` (taken verbatim).
pub open spec fn spec_read_policy(base: Seq<char>, token: Seq<char>, name: Seq<char>) -> RequestModel {
    RequestModel {
        method: Method::Get,
        url: trim_trailing_slashes(base) + seq!['/', 'v', '1', '/'] + sys_policy_path() + seq!['/']
            + name,
        header: (token_header_name(), token),
        body: None,
    }
}

/// The bearer-token header's name as a string.
pub fn token_header() -> (r: &'static str)
    ensures
        r@ == token_header_name(),
{
    proof {
        reveal_strlit("X-Vault-Token");
        assert("X-Vault-Token"@ =~= token_header_name());
    }
    "X-Vault-Token"
}

fn assemble(method: Method, url: String, token: &str, body: Option<String>) -> (r: HttpRequest)
    ensures
        r@ == (RequestModel {
            method,
            url: url@,
            header: (token_header_name(), token@),
            body: match body {
                Some(b) => Some(b@),
                None => None,
            },
        }),
{
    HttpRequest {
        method,
        url,
        header_name: String::from_str(token_header()),
        token: String::from_str(token),
        body,
    }
}

/// Builds the read of the secret at `path`.
pub fn fetch_secret_request(base: &str, token: &str, path: &str) -> (r: HttpRequest)
    ensures
        r@ == spec_fetch_secret(base@, token@, path@),
{
    assemble(Method::Get, request_url(base, path), token, None)
}

/// Builds the listing of the secrets under `path`.
pub fn list_secrets_request(base: &str, token: &str, path: &str) -> (r: HttpRequest)
    ensures
        r@ == spec_list_secrets(base@, token@, path@),
{
    assemble(Method::List, request_url(base, path), token, None)
}

/// Builds the write of `payload` to the secret at `path`. The payload is
/// wrapped in the `{"data": ...}` envelope, exactly once, and is otherwise
/// carried untouched.
pub fn save_secret_request(base: &str, token: &str, path: &str, payload: JsonValue) -> (r:
    HttpRequest)
    ensures
        r@ == spec_save_secret(base@, token@, path@, payload@),
{
    let body = to_json_string(&wrap_payload(payload));
    assemble(Method::Post, request_url(base, path), token, Some(body))
}

/// The policy-list path as a string.
fn sys_policy_str() -> (r: &'static str)
    ensures
        r@ == sys_policy_path(),
{
    proof {
        reveal_strlit("sys/policy");
        assert("sys/policy"@ =~= sys_policy_path());
    }
    "sys/policy"
}

/// Builds the listing of the server's policies.
pub fn list_policies_request(base: &str, token: &str) -> (r: HttpRequest)
    ensures
        r@ == spec_list_policies(base@, token@),
{
    assemble(Method::Get, request_url(base, sys_policy_str()), token, None)
}

/// Builds the read of the policy called `name`.
pub fn read_policy_request(base: &str, token: &str, name: &str) -> (r: HttpRequest)
    ensures
        r@ == spec_read_policy(base@, token@, name@),
{
    let mut url = request_url(base, sys_policy_str());
    url.append("/");
    proof {
        reveal_strlit("/");
        assert("/"@ =~= seq!['/']);
        assert(crate::urls::trim_leading_slashes(sys_policy_path()) == sys_policy_path());
    }
    url.append(name);
    proof {
        assert(url@ =~= spec_read_policy(base@, token@, name@).url);
    }
    assemble(Method::Get, url, token, None)
}

/// Law: only the write operation carries a body, so no read, list or policy
/// request can hold an envelope added by the gateway; the write's body is
/// the enveloped payload and nothing else.
pub proof fn lemma_envelope_only_on_write(
    base: Seq<char>,
    token: Seq<char>,
    path: Seq<char>,
    name: Seq<char>,
    payload: Json,
)
    ensures
        spec_fetch_secret(base, token, path).body is None,
        spec_list_secrets(base, token, path).body is None,
        spec_list_policies(base, token).body is None,
        spec_read_policy(base, token, name).body is None,
        spec_save_secret(base, token, path, payload).body == Some(json_text(spec_wrap(payload))),
{
}

/// Law: listing secrets goes out under the non-standard `LIST` verb, which
/// is not the text of `GET`.
pub proof fn lemma_list_uses_list_verb(base: Seq<char>, token: Seq<char>, path: Seq<char>)
    ensures
        spec_list_secrets(base, token, path).method == Method::List,
        Method::List.verb_spec() == seq!['L', 'I', 'S', 'T'],
        Method::List.verb_spec() != Method::Get.verb_spec(),
{
    assert(Method::List.verb_spec()[0] != Method::Get.verb_spec()[0]);
}

/// Law: every operation carries exactly the header `X-Vault-Token` with the
/// token as supplied, untransformed.
pub proof fn lemma_token_header_exact(
    base: Seq<char>,
    token: Seq<char>,
    path: Seq<char>,
    name: Seq<char>,
    payload: Json,
)
    ensures
        spec_fetch_secret(base, token, path).header == (token_header_name(), token),
        spec_list_secrets(base, token, path).header == (token_header_name(), token),
        spec_save_secret(base, token, path, payload).header == (token_header_name(), token),
        spec_list_policies(base, token).header == (token_header_name(), token),
        spec_read_policy(base, token, name).header == (token_header_name(), token),
{
}

} // verus!
