use std::sync::Arc;
use vstd::prelude::*;

use crate::provider::{InstanceState, ProviderError};
use crate::registry::{
    lookup_outcome, InstanceMap, InstanceRegistry, RegisteredInstance, RegistryError,
    RegistryErrorView,
};
use crate::text::surround;

verus! {

// ---------------------------------------------------------------------------
// Request paths
// ---------------------------------------------------------------------------

/// The path prefix, after its leading slashes, under which instance ids stand.
pub open spec fn instances_prefix() -> Seq<char> {
    "v1/instances/"@
}

/// `k` is the number of leading '/' characters of `s`.
pub open spec fn leading_slashes(s: Seq<char>, k: int) -> bool {
    &&& 0 <= k <= s.len()
    &&& forall|i: int| 0 <= i < k ==> s[i] == '/'
    &&& (k == s.len() || s[k] != '/')
}

/// `s` without its leading '/' characters.
pub open spec fn trim_leading_slashes(s: Seq<char>) -> Seq<char> {
    s.skip(choose|k: int| leading_slashes(s, k))
}

/// `k` is where the first '/'-separated segment of `s` ends.
pub open spec fn segment_end(s: Seq<char>, k: int) -> bool {
    &&& 0 <= k <= s.len()
    &&& forall|i: int| 0 <= i < k ==> s[i] != '/'
    &&& (k == s.len() || s[k] == '/')
}

/// The text of `s` up to its first '/', or all of `s` when it has none.
pub open spec fn first_segment(s: Seq<char>) -> Seq<char> {
    s.take(choose|k: int| segment_end(s, k))
}

/// The instance id that a request path names: with its leading slashes
/// removed and split at '/', the path must begin with the segments `v1` and
/// `instances`, and the id is the third segment (possibly empty).
pub open spec fn instance_id_in_path(path: Seq<char>) -> Option<Seq<char>> {
    let t = trim_leading_slashes(path);
    if instances_prefix().is_prefix_of(t) {
        Some(first_segment(t.skip(instances_prefix().len() as int)))
    } else {
        None
    }
}

pub proof fn lemma_leading_slashes_unique(s: Seq<char>, k: int)
    requires
        leading_slashes(s, k),
    ensures
        (choose|j: int| leading_slashes(s, j)) == k,
{
    let j = choose|j: int| leading_slashes(s, j);
    assert(leading_slashes(s, j));
    if j < k {
        assert(s[j] == '/');
    } else if k < j {
        assert(s[k] == '/');
    }
}

pub proof fn lemma_segment_end_unique(s: Seq<char>, k: int)
    requires
        segment_end(s, k),
    ensures
        (choose|j: int| segment_end(s, j)) == k,
{
    let j = choose|j: int| segment_end(s, j);
    assert(segment_end(s, j));
    if j < k {
        assert(s[j] != '/');
    } else if k < j {
        assert(s[k] != '/');
    }
}

/// Whether `pat` occurs in `s` at character position `start`.
fn matches_at(s: &str, n: usize, start: usize, pat: &str) -> (b: bool)
    requires
        n == s@.len(),
        start <= n,
    ensures
        b == (start + pat@.len() <= n && s@.subrange(start as int, start + pat@.len()) == pat@),
{
    let m: usize = pat.unicode_len();
    if m > n - start {
        return false;
    }
    let mut i: usize = 0;
    while i < m
        invariant
            m == pat@.len(),
            n == s@.len(),
            start + m <= n,
            i <= m,
            forall|j: int| 0 <= j < i ==> s@[start + j] == pat@[j],
        decreases m - i,
    {
        if s.get_char(start + i) != pat.get_char(i) {
            proof {
                assert(s@.subrange(start as int, start + m)[i as int] != pat@[i as int]);
            }
            return false;
        }
        i = i + 1;
    }
    proof {
        assert(s@.subrange(start as int, start + m) =~= pat@);
    }
    true
}

/// The instance id named by a request path of the form
/// `/v1/instances/<id>/...`, if it has that form.
pub fn extract_instance_id(path: &str) -> (r: Option<String>)
    ensures
        match r {
            Some(id) => instance_id_in_path(path@) == Some(id@),
            None => instance_id_in_path(path@) is None,
        },
{
    let n: usize = path.unicode_len();
    let mut start: usize = 0;
    while start < n && path.get_char(start) == '/'
        invariant
            n == path@.len(),
            start <= n,
            forall|i: int| 0 <= i < start ==> path@[i] == '/',
        decreases n - start,
    {
        start = start + 1;
    }
    let ghost t = path@.skip(start as int);
    proof {
        assert(leading_slashes(path@, start as int));
        lemma_leading_slashes_unique(path@, start as int);
        assert(trim_leading_slashes(path@) == t);
    }
    let prefix = "v1/instances/";
    if !matches_at(path, n, start, prefix) {
        proof {
            if instances_prefix().is_prefix_of(t) {
                assert(path@.subrange(start as int, start + prefix@.len()) =~= t.subrange(
                    0,
                    prefix@.len() as int,
                ));
            }
        }
        return None;
    }
    let id_start: usize = start + prefix.unicode_len();
    proof {
        assert(t.subrange(0, prefix@.len() as int) =~= path@.subrange(
            start as int,
            start + prefix@.len(),
        ));
        assert(instances_prefix().is_prefix_of(t));
    }
    let mut end = id_start;
    while end < n && path.get_char(end) != '/'
        invariant
            n == path@.len(),
            id_start <= end <= n,
            forall|i: int| id_start <= i < end ==> path@[i] != '/',
        decreases n - end,
    {
        end = end + 1;
    }
    let ghost rest = t.skip(prefix@.len() as int);
    proof {
        assert(rest =~= path@.skip(id_start as int));
        assert(segment_end(rest, (end - id_start) as int));
        lemma_segment_end_unique(rest, (end - id_start) as int);
        assert(first_segment(rest) =~= path@.subrange(id_start as int, end as int));
    }
    Some(path.substring_char(id_start, end).to_owned())
}

// ---------------------------------------------------------------------------
// Origin guard
// ---------------------------------------------------------------------------

/// The body of the answer to a request from an origin that is not allowed.
pub const ORIGIN_REJECTED_MESSAGE: &'static str = "origin not allowed";

/// The methods announced in the answer to a CORS preflight request.
pub const PREFLIGHT_ALLOW_METHODS: &'static str = "GET, POST, OPTIONS";

/// The request headers announced in the answer to a CORS preflight request.
pub const PREFLIGHT_ALLOW_HEADERS: &'static str = "content-type";

/// What the origin guard does with a request.
pub enum GuardAction {
    /// Pass the request on unchanged.
    Forward,
    /// Answer `403 Forbidden` with [`ORIGIN_REJECTED_MESSAGE`].
    Reject,
    /// Answer the preflight with `204 No Content`, allowing `allow_origin`,
    /// [`PREFLIGHT_ALLOW_METHODS`] and [`PREFLIGHT_ALLOW_HEADERS`].
    Preflight { allow_origin: String },
    /// Pass the request on and allow `allow_origin` on its response.
    ForwardWithOrigin { allow_origin: String },
}

/// [`GuardAction`] with its origin taken as characters.
pub enum GuardActionView {
    Forward,
    Reject,
    Preflight(Seq<char>),
    ForwardWithOrigin(Seq<char>),
}

impl View for GuardAction {
    type V = GuardActionView;

    open spec fn view(&self) -> GuardActionView {
        match self {
            GuardAction::Forward => GuardActionView::Forward,
            GuardAction::Reject => GuardActionView::Reject,
            GuardAction::Preflight { allow_origin } => GuardActionView::Preflight(allow_origin@),
            GuardAction::ForwardWithOrigin { allow_origin } => GuardActionView::ForwardWithOrigin(
                allow_origin@,
            ),
        }
    }
}

/// The allowed origins of an instance, taken as characters.
pub open spec fn origins_of(origins: Seq<String>) -> Seq<Seq<char>> {
    origins.map_values(|o: String| o@)
}

/// What the guard does with a request for `path`, carrying the `Origin`
/// header `origin` (if any), that is a preflight (`OPTIONS`) request or
/// not. Requests that name no registered instance, and requests without an
/// `Origin` header, pass; a known instance refuses origins outside its list.
pub open spec fn guard_outcome<P>(
    m: InstanceMap<P>,
    path: Seq<char>,
    origin: Option<Seq<char>>,
    preflight: bool,
) -> GuardActionView {
    match instance_id_in_path(path) {
        None => GuardActionView::Forward,
        Some(id) => if !m.contains_key(id) {
            GuardActionView::Forward
        } else {
            match origin {
                None => GuardActionView::Forward,
                Some(o) => if !origins_of(m[id].allowed_origins@).contains(o) {
                    GuardActionView::Reject
                } else if preflight {
                    GuardActionView::Preflight(o)
                } else {
                    GuardActionView::ForwardWithOrigin(o)
                },
            }
        },
    }
}

/// Whether `origin` is one of `allowed`.
pub fn origin_allowed(allowed: &Vec<String>, origin: &String) -> (b: bool)
    ensures
        b == origins_of(allowed@).contains(origin@),
{
    let mut i: usize = 0;
    while i < allowed.len()
        invariant
            i <= allowed@.len(),
            forall|j: int| 0 <= j < i ==> allowed@[j]@ != origin@,
        decreases allowed@.len() - i,
    {
        if allowed[i] == *origin {
            proof {
                assert(origins_of(allowed@)[i as int] == origin@);
            }
            return true;
        }
        i = i + 1;
    }
    proof {
        if origins_of(allowed@).contains(origin@) {
            let j = choose|j: int|
                0 <= j < origins_of(allowed@).len() && origins_of(allowed@)[j] == origin@;
            assert(allowed@[j]@ == origin@);
        }
    }
    false
}

/// Decides what the origin guard does with a request: the checks of the
/// API's origin-restricted CORS policy.
pub fn guard_decision<P>(
    registry: &InstanceRegistry<P>,
    path: &str,
    origin: Option<String>,
    preflight: bool,
) -> (r: GuardAction)
    ensures
        r@ == guard_outcome(
            registry@,
            path@,
            match origin {
                Some(o) => Some(o@),
                None => None,
            },
            preflight,
        ),
{
    let id = match extract_instance_id(path) {
        Some(id) => id,
        None => return GuardAction::Forward,
    };
    let instance = match registry.get(id.as_str()) {
        Ok(instance) => instance,
        Err(_) => return GuardAction::Forward,
    };
    let origin = match origin {
        Some(o) => o,
        None => return GuardAction::Forward,
    };
    if !origin_allowed(&instance.allowed_origins, &origin) {
        return GuardAction::Reject;
    }
    if preflight {
        GuardAction::Preflight { allow_origin: origin }
    } else {
        GuardAction::ForwardWithOrigin { allow_origin: origin }
    }
}

// ---------------------------------------------------------------------------
// API errors and replies
// ---------------------------------------------------------------------------

/// Failures that the HTTP API reports.
pub enum ApiError {
    NotFound(String),
    Provider(String),
    Internal(String),
}

/// [`ApiError`] with its text taken as characters.
pub enum ApiErrorView {
    NotFound(Seq<char>),
    Provider(Seq<char>),
    Internal(Seq<char>),
}

impl View for ApiError {
    type V = ApiErrorView;

    open spec fn view(&self) -> ApiErrorView {
        match self {
            ApiError::NotFound(id) => ApiErrorView::NotFound(id@),
            ApiError::Provider(m) => ApiErrorView::Provider(m@),
            ApiError::Internal(m) => ApiErrorView::Internal(m@),
        }
    }
}

/// How a registry failure is reported: a missing instance is "not found",
/// every other failure is internal, with its message.
pub open spec fn api_error_of_registry(e: RegistryErrorView) -> ApiErrorView {
    match e {
        RegistryErrorView::InstanceNotFound(id) => ApiErrorView::NotFound(id),
        _ => ApiErrorView::Internal(e.message()),
    }
}

impl ApiErrorView {
    /// The HTTP status and the error message of the answer.
    pub open spec fn status_and_message(self) -> (u16, Seq<char>) {
        match self {
            ApiErrorView::NotFound(id) => (404, "instance '"@ + id + "' not found"@),
            ApiErrorView::Provider(m) => (502, m),
            ApiErrorView::Internal(m) => (500, m),
        }
    }
}

impl ApiError {
    /// The API error that reports a registry failure.
    pub fn from_registry_error(err: RegistryError) -> (r: ApiError)
        ensures
            r@ == api_error_of_registry(err@),
    {
        match err {
            RegistryError::InstanceNotFound(id) => ApiError::NotFound(id),
            other => ApiError::Internal(other.message()),
        }
    }

    /// The API error that reports a provider failure.
    pub fn from_provider_error(err: ProviderError) -> (r: ApiError)
        ensures
            err matches ProviderError::Message(m) && r@ == ApiErrorView::Provider(m@),
    {
        match err {
            ProviderError::Message(m) => ApiError::Provider(m),
        }
    }

    /// The HTTP status of the answer and the message that its JSON body
    /// carries under `error`.
    pub fn status_and_message(&self) -> (r: (u16, String))
        ensures
            (r.0, r.1@) == self@.status_and_message(),
    {
        match self {
            ApiError::NotFound(id) => (404, surround("instance '", id.as_str(), "' not found")),
            ApiError::Provider(m) => (502, m.clone()),
            ApiError::Internal(m) => (500, m.clone()),
        }
    }
}

/// The body of a successful answer of the instance endpoints.
pub struct StatusResponse {
    pub id: String,
    pub state: InstanceState,
}

/// A reply of the instance endpoints, with its texts taken as characters.
pub open spec fn reply_view(r: Result<StatusResponse, ApiError>) -> Result<
    (Seq<char>, InstanceState),
    ApiErrorView,
> {
    match r {
        Ok(s) => Ok((s.id@, s.state)),
        Err(e) => Err(e@),
    }
}

/// The instance that a request for `id` concerns, or the API error that
/// answers it.
pub fn find_instance<P>(registry: &InstanceRegistry<P>, id: &str) -> (r: Result<
    Arc<RegisteredInstance<P>>,
    ApiError,
>)
    ensures
        match r {
            Ok(a) => lookup_outcome(registry@, id@) == Ok::<_, RegistryErrorView>(*a),
            Err(e) => lookup_outcome(registry@, id@) matches Err(le) && e@
                == api_error_of_registry(le),
        },
{
    match registry.get(id) {
        Ok(a) => Ok(a),
        Err(e) => Err(ApiError::from_registry_error(e)),
    }
}

/// The answer of the status endpoint for instance `id`, once its provider
/// has reported `status`.
pub fn status_reply(id: String, status: Result<InstanceState, ProviderError>) -> (r: Result<
    StatusResponse,
    ApiError,
>)
    ensures
        match status {
            Ok(state) => reply_view(r) == Ok::<_, ApiErrorView>((id@, state)),
            Err(ProviderError::Message(m)) => reply_view(r) == Err::<(Seq<char>, InstanceState), _>(
                ApiErrorView::Provider(m@),
            ),
        },
{
    match status {
        Ok(state) => Ok(StatusResponse { id, state }),
        Err(e) => Err(ApiError::from_provider_error(e)),
    }
}

/// The answer of the start endpoint for instance `id`, once its provider
/// has answered the start request with `started`: a started instance is
/// reported as starting.
pub fn start_reply(id: String, started: Result<(), ProviderError>) -> (r: Result<
    StatusResponse,
    ApiError,
>)
    ensures
        match started {
            Ok(()) => reply_view(r) == Ok::<_, ApiErrorView>((id@, InstanceState::Starting)),
            Err(ProviderError::Message(m)) => reply_view(r) == Err::<(Seq<char>, InstanceState), _>(
                ApiErrorView::Provider(m@),
            ),
        },
{
    match started {
        Ok(()) => Ok(StatusResponse { id, state: InstanceState::Starting }),
        Err(e) => Err(ApiError::from_provider_error(e)),
    }
}

} // verus!
