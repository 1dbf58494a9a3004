//! Service providers: selection by name, validation before a chat call, and the
//! acceptance rule for task requests.

use vstd::prelude::*;
use crate::endpoint::{chat_endpoint, siliconflow_chat_endpoint};
use crate::text::{ascii_lower_code, eq_ignore_ascii_case, is_blank, str_eq_ignore_ascii_case, trim, trim_str};

verus! {

/// A stored service provider.
#[derive(Debug)]
pub struct ServiceProvider {
    pub id: i64,
    pub provider_name: String,
    pub model_name: String,
    pub api_url: String,
    pub api_key: String,
}

/// The fields of a service provider that is about to be stored.
#[derive(Debug)]
pub struct NewServiceProvider {
    pub provider_name: String,
    pub model_name: String,
    pub api_url: String,
    pub api_key: String,
}

/// Why a provider lookup or a chat call was refused.
#[derive(Debug)]
pub enum ApiError {
    /// No provider has this name (up to ASCII case).
    ServiceProviderNotFound(String),
    /// The selected provider, named here, has a blank API key.
    EmptyApiKey(String),
    /// The selected provider, named here, has a blank model name.
    EmptyModelName(String),
}

/// The human-readable text of an error.
pub open spec fn api_error_message(e: ApiError) -> Seq<char> {
    match e {
        ApiError::ServiceProviderNotFound(n) => "service provider not found: "@ + n@,
        ApiError::EmptyApiKey(n) => "service api_key is empty: "@ + n@,
        ApiError::EmptyModelName(n) => "service model_name is empty: "@ + n@,
    }
}

impl ApiError {
    /// The human-readable text of this error.
    pub fn message(&self) -> (s: String)
        ensures
            s@ == api_error_message(*self),
    {
        match self {
            ApiError::ServiceProviderNotFound(n) => {
                let mut s = String::from_str("service provider not found: ");
                s.append(n.as_str());
                s
            },
            ApiError::EmptyApiKey(n) => {
                let mut s = String::from_str("service api_key is empty: ");
                s.append(n.as_str());
                s
            },
            ApiError::EmptyModelName(n) => {
                let mut s = String::from_str("service model_name is empty: ");
                s.append(n.as_str());
                s
            },
        }
    }
}

/// Whether an HTTP status code reports success: the `2xx` range.
pub open spec fn status_is_success(code: u16) -> bool {
    200 <= code < 300
}

/// Whether a chat call's reply status lets the reply be read as an answer.
pub fn reply_status_ok(code: u16) -> (b: bool)
    ensures
        b == status_is_success(code),
{
    200 <= code && code < 300
}

/// The error text of a chat call whose reply status was not a success: the status as
/// shown (code and reason) and the reply body, or a note that the body could not be read.
pub open spec fn chat_failure_text(status: Seq<char>, body: Option<Seq<char>>) -> Seq<char> {
    "siliconflow call failed: status="@ + status + ", body="@ + match body {
        Some(b) => b,
        None => "<failed to read body>"@,
    }
}

/// The error text of a chat call whose reply had the status shown as `status` and whose
/// body read as `body` (`None` when it could not be read).
pub fn chat_failure_message(status: &str, body: Option<String>) -> (s: String)
    ensures
        s@ == chat_failure_text(
            status@,
            match body {
                Some(b) => Some(b@),
                None => None,
            },
        ),
{
    let mut s = String::from_str("siliconflow call failed: status=");
    s.append(status);
    s.append(", body=");
    match body {
        Some(b) => s.append(b.as_str()),
        None => s.append("<failed to read body>"),
    }
    s
}

/// Whether a provider's name equals `name` up to ASCII case.
pub open spec fn name_matches(p: ServiceProvider, name: Seq<char>) -> bool {
    eq_ignore_ascii_case(p.provider_name@, name)
}

/// The position of the first provider whose name matches, or the length when none does.
pub open spec fn first_match(ps: Seq<ServiceProvider>, name: Seq<char>) -> int
    decreases ps.len(),
{
    if ps.len() == 0 {
        0
    } else if name_matches(ps[0], name) {
        0
    } else {
        1 + first_match(ps.drop_first(), name)
    }
}

/// `first_match` is the least matching position, or the length when nothing matches.
pub proof fn lemma_first_match(ps: Seq<ServiceProvider>, name: Seq<char>)
    ensures
        0 <= first_match(ps, name) <= ps.len(),
        first_match(ps, name) < ps.len() ==> name_matches(ps[first_match(ps, name)], name),
        forall|j: int| 0 <= j < first_match(ps, name) ==> !name_matches(#[trigger] ps[j], name),
    decreases ps.len(),
{
    if ps.len() > 0 && !name_matches(ps[0], name) {
        lemma_first_match(ps.drop_first(), name);
        assert forall|j: int| 0 <= j < first_match(ps, name) implies !name_matches(
            #[trigger] ps[j],
            name,
        ) by {
            if j > 0 {
                assert(ps[j] == ps.drop_first()[j - 1]);
            }
        }
        if first_match(ps, name) < ps.len() {
            assert(ps[first_match(ps, name)] == ps.drop_first()[first_match(ps.drop_first(), name)]);
        }
    }
}

/// Names that are equal up to ASCII case select the same provider.
pub proof fn lemma_lookup_ignores_ascii_case(ps: Seq<ServiceProvider>, n1: Seq<char>, n2: Seq<char>)
    requires
        eq_ignore_ascii_case(n1, n2),
    ensures
        first_match(ps, n1) == first_match(ps, n2),
    decreases ps.len(),
{
    if ps.len() > 0 {
        let a = ps[0].provider_name@;
        assert(name_matches(ps[0], n1) == name_matches(ps[0], n2)) by {
            if a.len() == n1.len() {
                assert(eq_ignore_ascii_case(a, n1) <==> eq_ignore_ascii_case(a, n2)) by {
                    if eq_ignore_ascii_case(a, n1) {
                        assert forall|i: int| 0 <= i < a.len() implies ascii_lower_code(a[i])
                            == ascii_lower_code(n2[i]) by {
                            assert(ascii_lower_code(a[i]) == ascii_lower_code(n1[i]));
                            assert(ascii_lower_code(n1[i]) == ascii_lower_code(n2[i]));
                        }
                    }
                    if eq_ignore_ascii_case(a, n2) {
                        assert forall|i: int| 0 <= i < a.len() implies ascii_lower_code(a[i])
                            == ascii_lower_code(n1[i]) by {
                            assert(ascii_lower_code(a[i]) == ascii_lower_code(n2[i]));
                            assert(ascii_lower_code(n1[i]) == ascii_lower_code(n2[i]));
                        }
                    }
                }
            }
        }
        lemma_lookup_ignores_ascii_case(ps.drop_first(), n1, n2);
    }
}

/// The result of looking a provider up by name: the first provider whose name equals
/// `name` up to ASCII case, or the not-found error carrying `name`.
pub open spec fn lookup_result(ps: Seq<ServiceProvider>, name: Seq<char>, r: Result<ServiceProvider, ApiError>) -> bool {
    let k = first_match(ps, name);
    if k < ps.len() {
        r == Ok::<ServiceProvider, ApiError>(ps[k])
    } else {
        r matches Err(ApiError::ServiceProviderNotFound(n)) && n@ == name
    }
}

/// The first provider in `services` whose name equals `provider_name` up to ASCII case.
pub fn select_service_provider(services: Vec<ServiceProvider>, provider_name: &str) -> (r: Result<
    ServiceProvider,
    ApiError,
>)
    ensures
        lookup_result(services@, provider_name@, r),
{
    let mut v = services;
    let n = v.len();
    let mut i: usize = 0;
    proof {
        lemma_first_match(services@, provider_name@);
    }
    while i < n
        invariant
            v@ == services@,
            n == services@.len(),
            i <= n,
            i <= first_match(services@, provider_name@),
            0 <= first_match(services@, provider_name@) <= n,
            first_match(services@, provider_name@) < n ==> name_matches(
                services@[first_match(services@, provider_name@)],
                provider_name@,
            ),
            forall|j: int|
                0 <= j < first_match(services@, provider_name@) ==> !name_matches(
                    #[trigger] services@[j],
                    provider_name@,
                ),
        decreases n - i,
    {
        if str_eq_ignore_ascii_case(v[i].provider_name.as_str(), provider_name) {
            let ghost before = v@;
            let found = v.swap_remove(i);
            assert(found == before[i as int]);
            return Ok(found);
        }
        i += 1;
    }
    Err(ApiError::ServiceProviderNotFound(String::from_str(provider_name)))
}

/// Where and how a chat-completions request for a provider is sent.
#[derive(Debug)]
pub struct ChatCallTarget {
    /// The chat-completions endpoint derived from the provider's base URL.
    pub endpoint: String,
    /// The bearer token.
    pub api_key: String,
    /// The model to ask.
    pub model: String,
}

/// What preparing a chat call for `name` gives: the lookup error; or, for the selected
/// provider, an error when its API key or (then) its model name is blank; or its
/// endpoint, key and model.
pub open spec fn chat_call_result(ps: Seq<ServiceProvider>, name: Seq<char>, r: Result<ChatCallTarget, ApiError>) -> bool {
    let k = first_match(ps, name);
    if k >= ps.len() {
        r matches Err(ApiError::ServiceProviderNotFound(n)) && n@ == name
    } else {
        let p = ps[k];
        if trim(p.api_key@).len() == 0 {
            r matches Err(ApiError::EmptyApiKey(n)) && n@ == p.provider_name@
        } else if trim(p.model_name@).len() == 0 {
            r matches Err(ApiError::EmptyModelName(n)) && n@ == p.provider_name@
        } else {
            r matches Ok(t) && t.endpoint@ == chat_endpoint(p.api_url@) && t.api_key@ == p.api_key@
                && t.model@ == p.model_name@
        }
    }
}

/// Selects the provider named `provider_name` and checks that it can be called.
pub fn prepare_chat_call(services: Vec<ServiceProvider>, provider_name: &str) -> (r: Result<
    ChatCallTarget,
    ApiError,
>)
    ensures
        chat_call_result(services@, provider_name@, r),
{
    let service = match select_service_provider(services, provider_name) {
        Ok(s) => s,
        Err(e) => {
            return Err(e);
        },
    };
    if is_blank(service.api_key.as_str()) {
        return Err(ApiError::EmptyApiKey(service.provider_name));
    }
    if is_blank(service.model_name.as_str()) {
        return Err(ApiError::EmptyModelName(service.provider_name));
    }
    let endpoint = siliconflow_chat_endpoint(service.api_url.as_str());
    Ok(ChatCallTarget { endpoint, api_key: service.api_key, model: service.model_name })
}

/// A request to start a task.
#[derive(Debug)]
pub struct StartTaskRequest {
    pub requirement: String,
}

/// The answer to an accepted task request.
#[derive(Debug)]
pub struct StartTaskResponse {
    pub accepted: bool,
    pub requirement: String,
}

/// Accepts a task request whose requirement is not blank, echoing the trimmed requirement;
/// `None` means the request is refused as malformed.
pub fn accept_start_task(input: &StartTaskRequest) -> (r: Option<StartTaskResponse>)
    ensures
        trim(input.requirement@).len() == 0 ==> r is None,
        trim(input.requirement@).len() > 0 ==> (r matches Some(resp) && resp.accepted
            && resp.requirement@ == trim(input.requirement@)),
{
    let requirement = trim_str(input.requirement.as_str());
    if requirement.as_str().is_empty() {
        return None;
    }
    Some(StartTaskResponse { accepted: true, requirement })
}

} // verus!
