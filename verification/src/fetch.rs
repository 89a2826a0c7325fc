//! The redirect-following fetcher.
//!
//! One fetch issues a GET and walks a chain of redirection responses up to
//! a bounded hop count. The decisions of that walk live here as a state
//! machine: the caller performs each GET and hands back the response's
//! status and `Location` header, and [`FetchState::on_response`] says
//! whether the fetch is done, must follow a redirect, or has failed. The
//! same decisions run over a pre-listed script of responses in
//! [`fetch_over`], which makes the whole walk a checked, executable
//! function.

use vstd::prelude::*;

verus! {

/// The hop budget every download's fetch runs with.
pub const DEFAULT_MAX_HOPS: u8 = 10;

/// Whether a string parses as an HTTP URI, as `hyper::Uri`'s `FromStr`
/// decides it.
pub uninterp spec fn uri_parses(s: Seq<char>) -> bool;

/// Relies on `hyper::Uri`'s `FromStr`: whether a string parses as a URI is
/// a function of the string alone.
#[verifier::external_body]
fn uri_is_valid(s: &str) -> (r: bool)
    ensures
        r == uri_parses(s@),
{
    s.parse::<hyper::Uri>().is_ok()
}

/// The `Location` header of a redirection response, as the transport hands
/// it over: absent, present but not readable as text, or its text.
pub enum LocationHeader {
    Missing,
    NotText,
    Value(String),
}

/// The model of a `Location` header.
pub enum LocationModel {
    Missing,
    NotText,
    Value(Seq<char>),
}

impl View for LocationHeader {
    type V = LocationModel;

    open spec fn view(&self) -> LocationModel {
        match self {
            LocationHeader::Missing => LocationModel::Missing,
            LocationHeader::NotText => LocationModel::NotText,
            LocationHeader::Value(s) => LocationModel::Value(s@),
        }
    }
}

impl LocationHeader {
    /// A copy with the same view.
    pub fn dup(&self) -> (r: LocationHeader)
        ensures
            r@ == self@,
    {
        match self {
            LocationHeader::Missing => LocationHeader::Missing,
            LocationHeader::NotText => LocationHeader::NotText,
            LocationHeader::Value(s) => LocationHeader::Value(s.clone()),
        }
    }
}

/// Why one fetch failed. Every variant carries the URL of the request that
/// produced it.
#[derive(Debug)]
pub enum FetchError {
    /// A redirection response had no `Location` header.
    MissingRedirectTarget { status: u16, url: String },
    /// A redirection response's `Location` value was not readable as text
    /// or did not parse as a URI.
    InvalidRedirectTarget { status: u16, url: String },
    /// A response that is neither success nor redirection.
    UnhandledStatus { status: u16, url: String },
    /// The hop budget ran out before a success response was reached.
    RedirectLimitExceeded { max_hops: u8, last_url: String, original_url: String },
    /// The transport itself failed: name resolution, connection, TLS, or a
    /// failure to form the request at all.
    TransportError { url: String, cause: String },
}

/// The model of a fetch failure.
pub enum FetchErrorModel {
    MissingRedirectTarget { status: u16, url: Seq<char> },
    InvalidRedirectTarget { status: u16, url: Seq<char> },
    UnhandledStatus { status: u16, url: Seq<char> },
    RedirectLimitExceeded { max_hops: nat, last_url: Seq<char>, original_url: Seq<char> },
    TransportError { url: Seq<char>, cause: Seq<char> },
}

impl View for FetchError {
    type V = FetchErrorModel;

    open spec fn view(&self) -> FetchErrorModel {
        match self {
            FetchError::MissingRedirectTarget { status, url } => (
            FetchErrorModel::MissingRedirectTarget { status: *status, url: url@ }),
            FetchError::InvalidRedirectTarget { status, url } => (
            FetchErrorModel::InvalidRedirectTarget { status: *status, url: url@ }),
            FetchError::UnhandledStatus { status, url } => (
            FetchErrorModel::UnhandledStatus { status: *status, url: url@ }),
            FetchError::RedirectLimitExceeded { max_hops, last_url, original_url } => (
            FetchErrorModel::RedirectLimitExceeded {
                max_hops: *max_hops as nat,
                last_url: last_url@,
                original_url: original_url@,
            }),
            FetchError::TransportError { url, cause } => (
            FetchErrorModel::TransportError { url: url@, cause: cause@ }),
        }
    }
}

/// One fetch attempt in progress: the URL the fetch started from, the URL
/// the next request goes to, and how much of the hop budget is spent.
pub struct FetchState {
    pub original_url: String,
    pub current_url: String,
    pub hops_used: u8,
    pub max_hops: u8,
}

/// The model of a fetch attempt.
pub struct FetchStateModel {
    pub original_url: Seq<char>,
    pub current_url: Seq<char>,
    pub hops_used: nat,
    pub max_hops: nat,
}

impl View for FetchState {
    type V = FetchStateModel;

    open spec fn view(&self) -> FetchStateModel {
        FetchStateModel {
            original_url: self.original_url@,
            current_url: self.current_url@,
            hops_used: self.hops_used as nat,
            max_hops: self.max_hops as nat,
        }
    }
}

/// What one response means for the fetch: done, follow a redirect with the
/// state that the next request starts from, or fail.
pub enum FetchStep {
    Success,
    Redirect(FetchState),
    Failed(FetchError),
}

/// The model of a step's outcome.
pub enum FetchStepModel {
    Success,
    Redirect(FetchStateModel),
    Failed(FetchErrorModel),
}

impl View for FetchStep {
    type V = FetchStepModel;

    open spec fn view(&self) -> FetchStepModel {
        match self {
            FetchStep::Success => FetchStepModel::Success,
            FetchStep::Redirect(s) => FetchStepModel::Redirect(s@),
            FetchStep::Failed(e) => FetchStepModel::Failed(e@),
        }
    }
}

/// What one response makes of a fetch state: a 200 succeeds; a status in
/// the redirection range follows a usable `Location` target, consuming one
/// hop, and fails when the target is missing or unusable; any other status
/// fails at once.
pub open spec fn spec_step(st: FetchStateModel, status: u16, location: LocationModel) -> FetchStepModel {
    if status == 200 {
        FetchStepModel::Success
    } else if 300 <= status <= 310 {
        match location {
            LocationModel::Missing => FetchStepModel::Failed(
                FetchErrorModel::MissingRedirectTarget { status, url: st.current_url },
            ),
            LocationModel::NotText => FetchStepModel::Failed(
                FetchErrorModel::InvalidRedirectTarget { status, url: st.current_url },
            ),
            LocationModel::Value(loc) => if uri_parses(loc) {
                FetchStepModel::Redirect(
                    FetchStateModel {
                        original_url: st.original_url,
                        current_url: loc,
                        hops_used: st.hops_used + 1,
                        max_hops: st.max_hops,
                    },
                )
            } else {
                FetchStepModel::Failed(
                    FetchErrorModel::InvalidRedirectTarget { status, url: st.current_url },
                )
            },
        }
    } else {
        FetchStepModel::Failed(FetchErrorModel::UnhandledStatus { status, url: st.current_url })
    }
}

impl FetchState {
    /// The state a fetch of `url` starts from, with a budget of `max_hops`
    /// requests.
    pub fn start(url: String, max_hops: u8) -> (s: FetchState)
        ensures
            s@ == (FetchStateModel {
                original_url: url@,
                current_url: url@,
                hops_used: 0,
                max_hops: max_hops as nat,
            }),
    {
        let original_url = url.clone();
        FetchState { original_url, current_url: url, hops_used: 0, max_hops }
    }

    /// Whether the budget still allows a request.
    pub fn can_request(&self) -> (b: bool)
        ensures
            b == (self@.hops_used < self@.max_hops),
    {
        self.hops_used < self.max_hops
    }

    /// The URL the next request goes to.
    pub fn current_url(&self) -> (r: &String)
        ensures
            r@ == self@.current_url,
    {
        &self.current_url
    }

    /// The failure of a fetch whose budget ran out: every request in the
    /// budget was answered with a redirect.
    pub fn exhausted_error(&self) -> (e: FetchError)
        ensures
            e@ == (FetchErrorModel::RedirectLimitExceeded {
                max_hops: self@.max_hops,
                last_url: self@.current_url,
                original_url: self@.original_url,
            }),
    {
        FetchError::RedirectLimitExceeded {
            max_hops: self.max_hops,
            last_url: self.current_url.clone(),
            original_url: self.original_url.clone(),
        }
    }

    /// The failure of a request the transport could not complete.
    pub fn transport_error(&self, cause: String) -> (e: FetchError)
        ensures
            e@ == (FetchErrorModel::TransportError { url: self@.current_url, cause: cause@ }),
    {
        FetchError::TransportError { url: self.current_url.clone(), cause }
    }

    /// Decides what a response to the current request means, exactly as
    /// [`spec_step`] says: success on 200, one more hop on a redirection
    /// status with a usable target, a failure otherwise.
    pub fn on_response(&self, status: u16, location: LocationHeader) -> (r: FetchStep)
        requires
            self@.hops_used < self@.max_hops,
        ensures
            r@ == spec_step(self@, status, location@),
    {
        if status == 200 {
            FetchStep::Success
        } else if 300 <= status && status <= 310 {
            match location {
                LocationHeader::Missing => FetchStep::Failed(
                    FetchError::MissingRedirectTarget { status, url: self.current_url.clone() },
                ),
                LocationHeader::NotText => FetchStep::Failed(
                    FetchError::InvalidRedirectTarget { status, url: self.current_url.clone() },
                ),
                LocationHeader::Value(loc) => {
                    if uri_is_valid(loc.as_str()) {
                        FetchStep::Redirect(
                            FetchState {
                                original_url: self.original_url.clone(),
                                current_url: loc,
                                hops_used: self.hops_used + 1,
                                max_hops: self.max_hops,
                            },
                        )
                    } else {
                        FetchStep::Failed(
                            FetchError::InvalidRedirectTarget {
                                status,
                                url: self.current_url.clone(),
                            },
                        )
                    }
                },
            }
        } else {
            FetchStep::Failed(FetchError::UnhandledStatus { status, url: self.current_url.clone() })
        }
    }
}

/// One response of a scripted transport: a reply with a status and a
/// `Location` header, or a transport failure.
pub enum ScriptedResponse {
    Reply { status: u16, location: LocationHeader },
    Dropped { cause: String },
}

/// The model of a scripted response.
pub enum ScriptedResponseModel {
    Reply { status: u16, location: LocationModel },
    Dropped { cause: Seq<char> },
}

impl View for ScriptedResponse {
    type V = ScriptedResponseModel;

    open spec fn view(&self) -> ScriptedResponseModel {
        match self {
            ScriptedResponse::Reply { status, location } => (
            ScriptedResponseModel::Reply { status: *status, location: location@ }),
            ScriptedResponse::Dropped { cause } => (
            ScriptedResponseModel::Dropped { cause: cause@ }),
        }
    }
}

/// The models of a sequence of scripted responses.
pub open spec fn responses_model(rs: Seq<ScriptedResponse>) -> Seq<ScriptedResponseModel> {
    rs.map_values(|x: ScriptedResponse| x@)
}

/// The state a fetch of `url` starts from, at the model level.
pub open spec fn start_model(url: Seq<char>, max_hops: nat) -> FetchStateModel {
    FetchStateModel { original_url: url, current_url: url, hops_used: 0, max_hops }
}

/// The outcome of running the whole fetch from a state against a script
/// that answers the request of hop `i` with response `i`: the final URL on
/// success or the failure, paired with how many requests were made.
pub open spec fn spec_fetch(st: FetchStateModel, rs: Seq<ScriptedResponseModel>) -> (Result<
    Seq<char>,
    FetchErrorModel,
>, nat)
    decreases st.max_hops - st.hops_used,
{
    if st.hops_used >= st.max_hops {
        (
            Err(
                FetchErrorModel::RedirectLimitExceeded {
                    max_hops: st.max_hops,
                    last_url: st.current_url,
                    original_url: st.original_url,
                },
            ),
            0,
        )
    } else {
        match rs[st.hops_used as int] {
            ScriptedResponseModel::Dropped { cause } => (
                Err(FetchErrorModel::TransportError { url: st.current_url, cause }),
                1,
            ),
            ScriptedResponseModel::Reply { status, location } => match spec_step(
                st,
                status,
                location,
            ) {
                FetchStepModel::Success => (Ok(st.current_url), 1),
                FetchStepModel::Failed(e) => (Err(e), 1),
                FetchStepModel::Redirect(st2) => {
                    let (res, n) = spec_fetch(st2, rs);
                    (res, (n + 1) as nat)
                },
            },
        }
    }
}

/// Whether a scripted response is a redirect that can be followed: a reply
/// whose status is in the redirection range, carrying a `Location` value
/// that parses as a URI.
pub open spec fn redirect_reply(r: ScriptedResponseModel) -> bool {
    &&& r matches ScriptedResponseModel::Reply { status, location }
    &&& 300 <= status <= 310
    &&& location matches LocationModel::Value(loc)
    &&& uri_parses(loc)
}

/// The `Location` value a followable redirect carries.
pub open spec fn reply_location(r: ScriptedResponseModel) -> Seq<char> {
    r->location->Value_0
}

/// Law: a chain of followable redirects ending in a success reply is
/// followed to its end. When the responses up to position `k` are
/// followable redirects and the response at `k` is a 200 reply, the fetch
/// succeeds with the URL of the final request — the last `Location` value
/// of the chain, or the starting URL when there was no redirect — after
/// exactly one request per response used.
pub proof fn lemma_redirect_chain_reaches_success(
    st: FetchStateModel,
    rs: Seq<ScriptedResponseModel>,
    k: int,
)
    requires
        st.hops_used <= k < st.max_hops,
        forall|i: int| st.hops_used <= i < k ==> redirect_reply(#[trigger] rs[i]),
        rs[k] matches ScriptedResponseModel::Reply { status: 200u16, .. },
    ensures
        spec_fetch(st, rs).0 == Ok::<Seq<char>, FetchErrorModel>(
            if k == st.hops_used {
                st.current_url
            } else {
                reply_location(rs[k - 1])
            },
        ),
        spec_fetch(st, rs).1 == k - st.hops_used + 1,
    decreases k - st.hops_used,
{
    if st.hops_used < k {
        let r = rs[st.hops_used as int];
        assert(redirect_reply(r));
        let st2 = match spec_step(st, r->status, r->location) {
            FetchStepModel::Redirect(s) => s,
            _ => st,
        };
        assert(spec_step(st, r->status, r->location) == FetchStepModel::Redirect(st2));
        lemma_redirect_chain_reaches_success(st2, rs, k);
    }
}

/// Law: a success response ends the fetch at once. When the response to
/// the next request is a 200 reply, the fetch returns the URL of that
/// request, after exactly one more request.
pub proof fn lemma_success_is_terminal(
    st: FetchStateModel,
    rs: Seq<ScriptedResponseModel>,
    location: LocationModel,
)
    requires
        st.hops_used < st.max_hops,
        rs[st.hops_used as int] == (ScriptedResponseModel::Reply { status: 200u16, location }),
    ensures
        spec_fetch(st, rs).0 == Ok::<Seq<char>, FetchErrorModel>(st.current_url),
        spec_fetch(st, rs).1 == 1,
{
}

/// Law: a response whose status is neither success nor in the redirection
/// range ends the fetch with `UnhandledStatus` carrying that status and the
/// URL of the request that got it, after exactly one more request — no
/// redirect hop is consumed.
pub proof fn lemma_unhandled_status_is_terminal(
    st: FetchStateModel,
    rs: Seq<ScriptedResponseModel>,
    status: u16,
    location: LocationModel,
)
    requires
        st.hops_used < st.max_hops,
        rs[st.hops_used as int] == (ScriptedResponseModel::Reply { status, location }),
        status != 200,
        !(300 <= status <= 310),
    ensures
        spec_fetch(st, rs).0 == Err::<Seq<char>, FetchErrorModel>(
            FetchErrorModel::UnhandledStatus { status, url: st.current_url },
        ),
        spec_fetch(st, rs).1 == 1,
{
}

/// Law: a transport that answers every request in the remaining budget
/// with a followable redirect exhausts the fetch. The result is
/// `RedirectLimitExceeded` carrying the budget and the original URL, and
/// exactly the remaining budget of requests is made — no more, no fewer.
pub proof fn lemma_all_redirects_exhaust_budget(
    st: FetchStateModel,
    rs: Seq<ScriptedResponseModel>,
)
    requires
        st.hops_used <= st.max_hops,
        rs.len() >= st.max_hops,
        forall|i: int| st.hops_used <= i < st.max_hops ==> redirect_reply(#[trigger] rs[i]),
    ensures
        spec_fetch(st, rs).0 == Err::<Seq<char>, FetchErrorModel>(
            FetchErrorModel::RedirectLimitExceeded {
                max_hops: st.max_hops,
                last_url: if st.hops_used == st.max_hops {
                    st.current_url
                } else {
                    reply_location(rs[st.max_hops as int - 1])
                },
                original_url: st.original_url,
            },
        ),
        spec_fetch(st, rs).1 == st.max_hops - st.hops_used,
    decreases st.max_hops - st.hops_used,
{
    if st.hops_used < st.max_hops {
        let r = rs[st.hops_used as int];
        assert(redirect_reply(r));
        let st2 = match spec_step(st, r->status, r->location) {
            FetchStepModel::Redirect(s) => s,
            _ => st,
        };
        assert(spec_step(st, r->status, r->location) == FetchStepModel::Redirect(st2));
        lemma_all_redirects_exhaust_budget(st2, rs);
    }
}

/// Whether an executable fetch outcome agrees with its model.
pub open spec fn same_outcome(
    r: Result<String, FetchError>,
    m: Result<Seq<char>, FetchErrorModel>,
) -> bool {
    match (r, m) {
        (Ok(u), Ok(mu)) => u@ == mu,
        (Err(e), Err(me)) => e@ == me,
        _ => false,
    }
}

/// Runs a whole fetch of `url` against a scripted transport, following
/// redirects until a terminal outcome, exactly as [`spec_fetch`] says.
/// Returns the outcome — the URL whose request was answered with 200, or
/// the failure — and how many requests were made.
pub fn fetch_over(url: String, max_hops: u8, responses: &Vec<ScriptedResponse>) -> (r: (
    Result<String, FetchError>,
    usize,
))
    requires
        responses@.len() >= max_hops,
    ensures
        same_outcome(r.0, spec_fetch(start_model(url@, max_hops as nat), responses_model(responses@)).0),
        r.1 == spec_fetch(start_model(url@, max_hops as nat), responses_model(responses@)).1,
{
    let ghost rs = responses_model(responses@);
    let ghost st0 = start_model(url@, max_hops as nat);
    let mut state = FetchState::start(url.clone(), max_hops);
    loop
        invariant
            responses@.len() >= max_hops,
            rs == responses_model(responses@),
            st0 == start_model(url@, max_hops as nat),
            state@.max_hops == max_hops as nat,
            state@.hops_used <= state@.max_hops,
            spec_fetch(st0, rs).0 == spec_fetch(state@, rs).0,
            spec_fetch(st0, rs).1 == spec_fetch(state@, rs).1 + state@.hops_used,
        decreases state@.max_hops - state@.hops_used,
    {
        if !state.can_request() {
            proof {
                assert(spec_fetch(state@, rs).1 == 0);
            }
            let e = state.exhausted_error();
            let requests = state.hops_used as usize;
            return (Err(e), requests);
        }
        let idx = state.hops_used as usize;
        let resp = &responses[idx];
        proof {
            assert(rs[idx as int] == responses@[idx as int]@);
        }
        match resp {
            ScriptedResponse::Dropped { cause } => {
                let e = state.transport_error(cause.clone());
                let requests = state.hops_used as usize + 1;
                return (Err(e), requests);
            },
            ScriptedResponse::Reply { status, location } => {
                let status = *status;
                let loc = location.dup();
                let ghost pre = state@;
                match state.on_response(status, loc) {
                    FetchStep::Success => {
                        proof {
                            assert(spec_fetch(pre, rs) == (Ok::<Seq<char>, FetchErrorModel>(
                                pre.current_url,
                            ), 1nat));
                        }
                        let requests = state.hops_used as usize + 1;
                        return (Ok(state.current_url), requests);
                    },
                    FetchStep::Failed(e) => {
                        proof {
                            assert(spec_fetch(pre, rs) == (Err::<Seq<char>, FetchErrorModel>(e@),
                            1nat));
                        }
                        let requests = state.hops_used as usize + 1;
                        return (Err(e), requests);
                    },
                    FetchStep::Redirect(next) => {
                        proof {
                            assert(spec_step(pre, status, loc@) == FetchStepModel::Redirect(
                                next@,
                            ));
                            assert(spec_fetch(pre, rs).0 == spec_fetch(next@, rs).0);
                            assert(spec_fetch(pre, rs).1 == spec_fetch(next@, rs).1 + 1);
                        }
                        state = next;
                    },
                }
            },
        }
    }
}

} // verus!
