//! How the HTTP probe connects and what it does with a redirect.
//!
//! The exchange with the target is a walk: a request, its answer, and after
//! a redirect that the policy follows, the next request. The transport that
//! sends and receives is not part of this module. It asks [`request_of`]
//! what to send, and hands what came back to [`step`], which decides how
//! the walk goes on. [`walk`] does the same for answers given in advance.

use crate::http::{find_header, header_value, ClientConfig, FinalResponse, RequestConfig, Response};
use vstd::prelude::*;

verus! {

/// What the probe does when the target answers with a redirect.
#[derive(Clone, Copy, Debug, PartialEq, Eq, Structural)]
pub enum OnRedirect {
    /// Request the new location, resolving its host anew.
    Follow,
    /// Request the new location at the network address of the first request.
    Sticky,
    /// As `Sticky`, and at the port of the first request as well.
    StickyPort,
    /// Do not follow; the redirect counts as a warning.
    Warning,
    /// Do not follow; the redirect counts as unknown.
    Unknown,
}

impl OnRedirect {
    /// Whether a redirect is followed in this mode.
    pub open spec fn spec_follows(self) -> bool {
        self is Follow || self is Sticky || self is StickyPort
    }

    /// Whether a redirect is followed in this mode.
    pub fn follows(&self) -> (r: bool)
        ensures
            r == self.spec_follows(),
    {
        match self {
            OnRedirect::Follow | OnRedirect::Sticky | OnRedirect::StickyPort => true,
            OnRedirect::Warning | OnRedirect::Unknown => false,
        }
    }
}

/// A network address as a number, its first octet the most significant.
#[derive(Clone, Copy, Debug, PartialEq, Eq, Structural)]
pub enum IpAddress {
    V4(u32),
    V6(u128),
}

/// A network address and a port.
#[derive(Clone, Copy, Debug, PartialEq, Eq, Structural)]
pub struct SocketAddress {
    pub ip: IpAddress,
    pub port: u16,
}

/// The redirect policy of one check.
#[derive(Clone, Copy, Debug, PartialEq, Eq, Structural)]
pub struct ConnectionConfig {
    pub onredirect: OnRedirect,
    /// The number of redirects that may be followed.
    pub max_redirs: usize,
    /// An address to connect to at every hop, whatever the host resolves to.
    pub force_ip: Option<IpAddress>,
}

/// Why the transport could not deliver a response.
#[derive(Clone, Copy, Debug, PartialEq, Eq, Structural)]
pub enum TransportError {
    /// The host name could not be resolved.
    Resolution,
    /// The connection was refused or reset, or its encryption failed.
    Connection,
    /// The deadline passed.
    Timeout,
    /// What came back is no HTTP response.
    Protocol,
}

/// What the transport hands back for one request.
#[derive(Debug, PartialEq, Eq)]
pub enum HopEvent {
    /// A response, and the address it came from.
    Answered(Response, SocketAddress),
    Failed(TransportError),
}

/// Why a walk ended without a final response.
#[derive(Clone, Copy, Debug, PartialEq, Eq, Structural)]
pub enum WalkErrorKind {
    Resolution,
    Connection,
    Timeout,
    /// The target still redirected when no redirect was left to follow.
    RedirectLimit,
    Protocol,
}

/// A walk that ended without a final response.
#[derive(Debug, PartialEq, Eq)]
pub struct WalkError {
    pub kind: WalkErrorKind,
    /// The URL that was requested last.
    pub target: String,
}

/// The model of a [`WalkError`].
pub struct WalkErrorView {
    pub kind: WalkErrorKind,
    pub target: Seq<char>,
}

impl View for WalkError {
    type V = WalkErrorView;

    open spec fn view(&self) -> WalkErrorView {
        WalkErrorView { kind: self.kind, target: self.target@ }
    }
}

/// A walk with a request outstanding.
#[derive(Debug, PartialEq, Eq)]
pub struct Walk {
    /// The URL that is requested now.
    pub url: String,
    /// The number of redirects followed so far.
    pub hops: usize,
    /// The address that answered the first request, once it has.
    pub origin: Option<SocketAddress>,
}

/// The model of a [`Walk`].
pub struct WalkView {
    pub url: Seq<char>,
    pub hops: usize,
    pub origin: Option<SocketAddress>,
}

impl View for Walk {
    type V = WalkView;

    open spec fn view(&self) -> WalkView {
        WalkView { url: self.url@, hops: self.hops, origin: self.origin }
    }
}

/// Where a walk stands.
#[derive(Debug, PartialEq, Eq)]
pub enum WalkState {
    /// A request is outstanding.
    Following(Walk),
    /// The walk ended with a response that asks for nothing more.
    StoppedOk(FinalResponse),
    /// The walk ended with a redirect that the policy does not follow.
    StoppedByPolicy(FinalResponse),
    /// The walk ended at a redirect with none left to follow.
    StoppedLimit(WalkError),
    /// The transport failed, or a redirect led nowhere.
    Failed(WalkError),
}

/// The model of a [`WalkState`].
pub enum WalkStateView {
    Following(WalkView),
    StoppedOk(FinalResponse),
    StoppedByPolicy(FinalResponse),
    StoppedLimit(WalkErrorView),
    Failed(WalkErrorView),
}

impl View for WalkState {
    type V = WalkStateView;

    open spec fn view(&self) -> WalkStateView {
        match self {
            WalkState::Following(walk) => WalkStateView::Following(walk@),
            WalkState::StoppedOk(response) => WalkStateView::StoppedOk(*response),
            WalkState::StoppedByPolicy(response) => WalkStateView::StoppedByPolicy(*response),
            WalkState::StoppedLimit(error) => WalkStateView::StoppedLimit(error@),
            WalkState::Failed(error) => WalkStateView::Failed(error@),
        }
    }
}

/// Where the transport connects to.
#[derive(Clone, Copy, Debug, PartialEq, Eq, Structural)]
pub enum AddressRule {
    /// Wherever the host of the URL resolves to.
    Resolve,
    /// This address, at the port of the URL.
    Ip(IpAddress),
    /// This address and this port.
    IpAndPort(IpAddress, u16),
}

/// One request for the transport to make.
#[derive(Debug, PartialEq, Eq)]
pub struct HopRequest {
    pub url: String,
    pub address: AddressRule,
    /// Whether the body of the response is to be read.
    pub with_body: bool,
}

/// The URL that a location names when it is met at `base`.
pub uninterp spec fn joined_url(base: Seq<char>, location: Seq<char>) -> Option<Seq<char>>;

/// `url::Url::join` on the URL that `Url::parse` reads from `base`, as
/// text: the location itself where it is absolute, else the location
/// resolved against `base`; `None` where either is no URL.
#[verifier::external_body]
pub(crate) fn join_url(base: &str, location: &str) -> (r: Option<String>)
    ensures
        match r {
            Some(url) => joined_url(base@, location@) == Some(url@),
            None => joined_url(base@, location@) is None,
        },
{
    match url::Url::parse(base) {
        Ok(base) => match base.join(location) {
            Ok(url) => Some(String::from(url)),
            Err(_) => None,
        },
        Err(_) => None,
    }
}

/// The kind of failed walk that a failure of the transport makes.
pub open spec fn spec_kind_of(error: TransportError) -> WalkErrorKind {
    match error {
        TransportError::Resolution => WalkErrorKind::Resolution,
        TransportError::Connection => WalkErrorKind::Connection,
        TransportError::Timeout => WalkErrorKind::Timeout,
        TransportError::Protocol => WalkErrorKind::Protocol,
    }
}

/// The location that a response redirects to: the value of its `Location`
/// field where its status is one of the redirects, 300 to 399.
pub open spec fn redirect_target(response: Response) -> Option<Seq<char>> {
    if 300 <= response.status < 400 {
        header_value(response.headers@, "location"@)
    } else {
        None
    }
}

/// The address that answered the first request of a walk: the one on
/// record, or `peer` where this is the first answer.
pub open spec fn origin_of(origin: Option<SocketAddress>, peer: SocketAddress) -> SocketAddress {
    match origin {
        Some(origin) => origin,
        None => peer,
    }
}

/// Where a walk stands after an event, `next_url` being the URL that the
/// location of a redirect leads to.
///
/// A failure of the transport ends the walk. So does a response that does
/// not redirect, and a redirect under a policy that does not follow. A
/// redirect to follow ends the walk where as many were followed as the
/// policy allows, and where its location leads nowhere. Else the walk goes
/// on at the next URL, with one hop more.
pub open spec fn step_with(
    policy: ConnectionConfig,
    walk: WalkView,
    event: HopEvent,
    next_url: Option<Seq<char>>,
) -> WalkStateView {
    match event {
        HopEvent::Failed(error) => WalkStateView::Failed(
            WalkErrorView { kind: spec_kind_of(error), target: walk.url },
        ),
        HopEvent::Answered(response, peer) => if redirect_target(response) is None {
            WalkStateView::StoppedOk(FinalResponse { response, redirects: walk.hops })
        } else if !policy.onredirect.spec_follows() {
            WalkStateView::StoppedByPolicy(FinalResponse { response, redirects: walk.hops })
        } else if walk.hops >= policy.max_redirs {
            WalkStateView::StoppedLimit(
                WalkErrorView { kind: WalkErrorKind::RedirectLimit, target: walk.url },
            )
        } else {
            match next_url {
                None => WalkStateView::Failed(
                    WalkErrorView { kind: WalkErrorKind::Protocol, target: walk.url },
                ),
                Some(url) => WalkStateView::Following(
                    WalkView {
                        url,
                        hops: (walk.hops + 1) as usize,
                        origin: Some(origin_of(walk.origin, peer)),
                    },
                ),
            }
        }
    }
}

/// The URL that the redirect of an event leads to from `url`.
pub open spec fn next_url(url: Seq<char>, event: HopEvent) -> Option<Seq<char>> {
    match event {
        HopEvent::Answered(response, _) => match redirect_target(response) {
            Some(location) => joined_url(url, location),
            None => None,
        },
        HopEvent::Failed(_) => None,
    }
}

/// Where a walk stands after an event.
pub open spec fn step_spec(policy: ConnectionConfig, walk: WalkView, event: HopEvent)
    -> WalkStateView {
    step_with(policy, walk, event, next_url(walk.url, event))
}

/// Where a walk stands after a list of events, each the answer to the
/// request before it. Events after the end of the walk change nothing.
pub open spec fn walk_spec(policy: ConnectionConfig, state: WalkStateView, events: Seq<HopEvent>)
    -> WalkStateView
    decreases events.len(),
{
    if events.len() == 0 {
        state
    } else {
        match state {
            WalkStateView::Following(walk) => walk_spec(
                policy,
                step_spec(policy, walk, events[0]),
                events.skip(1),
            ),
            _ => state,
        }
    }
}

/// The address rule of a request.
///
/// A forced address is used at every hop. Without one, the first request
/// resolves the host. After a redirect, `Sticky` and `StickyPort` keep the
/// address that answered the first request, `StickyPort` its port as well,
/// and `Follow` resolves the new host.
pub open spec fn address_rule(policy: ConnectionConfig, origin: Option<SocketAddress>)
    -> AddressRule {
    match (origin, policy.onredirect) {
        (Some(origin), OnRedirect::StickyPort) => AddressRule::IpAndPort(
            match policy.force_ip {
                Some(ip) => ip,
                None => origin.ip,
            },
            origin.port,
        ),
        (Some(origin), OnRedirect::Sticky) => AddressRule::Ip(
            match policy.force_ip {
                Some(ip) => ip,
                None => origin.ip,
            },
        ),
        _ => match policy.force_ip {
            Some(ip) => AddressRule::Ip(ip),
            None => AddressRule::Resolve,
        },
    }
}

/// The walk before its first request.
pub fn start(client: &ClientConfig) -> (r: Walk)
    ensures
        r@ == (WalkView { url: client.url@, hops: 0, origin: None }),
{
    Walk { url: client.url.clone(), hops: 0, origin: None }
}

/// The request that a walk is waiting to have made.
pub fn request_of(policy: &ConnectionConfig, behavior: &RequestConfig, walk: &Walk) -> (r:
    HopRequest)
    ensures
        r.url@ == walk.url@,
        r.address == address_rule(*policy, walk.origin),
        r.with_body == !behavior.without_body,
{
    let forced = match policy.force_ip {
        Some(ip) => AddressRule::Ip(ip),
        None => AddressRule::Resolve,
    };
    let address = match walk.origin {
        None => forced,
        Some(origin) => {
            let ip = match policy.force_ip {
                Some(ip) => ip,
                None => origin.ip,
            };
            match policy.onredirect {
                OnRedirect::StickyPort => AddressRule::IpAndPort(ip, origin.port),
                OnRedirect::Sticky => AddressRule::Ip(ip),
                _ => forced,
            }
        },
    };
    HopRequest { url: walk.url.clone(), address, with_body: !behavior.without_body }
}

/// The kind of failed walk that a failure of the transport makes.
pub fn kind_of(error: TransportError) -> (r: WalkErrorKind)
    ensures
        r == spec_kind_of(error),
{
    match error {
        TransportError::Resolution => WalkErrorKind::Resolution,
        TransportError::Connection => WalkErrorKind::Connection,
        TransportError::Timeout => WalkErrorKind::Timeout,
        TransportError::Protocol => WalkErrorKind::Protocol,
    }
}

/// Whether an event is a redirect that the policy follows with a hop left.
fn to_follow<'a>(policy: &ConnectionConfig, walk: &Walk, event: &'a HopEvent) -> (r: Option<
    &'a String,
>)
    ensures
        match r {
            Some(location) => {
                &&& *event matches HopEvent::Answered(response, _)
                &&& redirect_target(response) == Some(location@)
                &&& policy.onredirect.spec_follows()
                &&& walk.hops < policy.max_redirs
            },
            None => forall|url: Option<Seq<char>>|
                #[trigger] step_with(*policy, walk@, *event, url) == step_with(
                    *policy,
                    walk@,
                    *event,
                    None,
                ),
        },
{
    match event {
        HopEvent::Failed(_) => None,
        HopEvent::Answered(response, _) => {
            if 300 <= response.status && response.status < 400 && policy.onredirect.follows()
                && walk.hops < policy.max_redirs {
                find_header(&response.headers, "location")
            } else {
                None
            }
        },
    }
}

/// Where a walk stands after an event, `next_url` being the URL that the
/// location of a redirect leads to.
pub fn step_to(policy: &ConnectionConfig, walk: Walk, event: HopEvent, next_url: Option<String>)
    -> (r: WalkState)
    ensures
        r@ == step_with(
            *policy,
            walk@,
            event,
            match next_url {
                Some(url) => Some(url@),
                None => None,
            },
        ),
{
    match event {
        HopEvent::Failed(error) => WalkState::Failed(
            WalkError { kind: kind_of(error), target: walk.url },
        ),
        HopEvent::Answered(response, peer) => {
            let redirects = 300 <= response.status && response.status < 400 && find_header(
                &response.headers,
                "location",
            ).is_some();
            if !redirects {
                WalkState::StoppedOk(FinalResponse { response, redirects: walk.hops })
            } else if !policy.onredirect.follows() {
                WalkState::StoppedByPolicy(FinalResponse { response, redirects: walk.hops })
            } else if walk.hops >= policy.max_redirs {
                WalkState::StoppedLimit(
                    WalkError { kind: WalkErrorKind::RedirectLimit, target: walk.url },
                )
            } else {
                match next_url {
                    None => WalkState::Failed(
                        WalkError { kind: WalkErrorKind::Protocol, target: walk.url },
                    ),
                    Some(url) => {
                        let origin = match walk.origin {
                            Some(origin) => origin,
                            None => peer,
                        };
                        WalkState::Following(
                            Walk { url, hops: walk.hops + 1, origin: Some(origin) },
                        )
                    },
                }
            }
        },
    }
}

/// Where a walk stands after an event.
pub fn step(policy: &ConnectionConfig, walk: Walk, event: HopEvent) -> (r: WalkState)
    ensures
        r@ == step_spec(*policy, walk@, event),
{
    let next = match to_follow(policy, &walk, &event) {
        Some(location) => join_url(walk.url.as_str(), location.as_str()),
        None => None,
    };
    step_to(policy, walk, event, next)
}

/// Follows a walk through a list of events, each the answer to the request
/// before it, up to the end of the walk or of the list.
pub fn walk(policy: &ConnectionConfig, start: Walk, script: Vec<HopEvent>) -> (r: WalkState)
    ensures
        r@ == walk_spec(*policy, WalkStateView::Following(start@), script@),
{
    let ghost goal = walk_spec(*policy, WalkStateView::Following(start@), script@);
    let mut events = script;
    let mut state = WalkState::Following(start);
    loop
        invariant
            goal == walk_spec(*policy, WalkStateView::Following(start@), script@),
            walk_spec(*policy, state@, events@) == goal,
        decreases events.len(),
    {
        if events.len() == 0 {
            return state;
        }
        match state {
            WalkState::Following(walk) => {
                let ghost before = events@;
                let event = events.remove(0);
                assert(events@ =~= before.skip(1));
                state = step(policy, walk, event);
            },
            stopped => {
                return stopped;
            },
        }
    }
}

/// The URL that a walk has reached from `url` when every event of `chain`
/// was a redirect whose location led somewhere; `None` for any other chain.
pub open spec fn target_after(url: Seq<char>, chain: Seq<HopEvent>) -> Option<Seq<char>>
    decreases chain.len(),
{
    if chain.len() == 0 {
        Some(url)
    } else {
        match next_url(url, chain[0]) {
            Some(next) => target_after(next, chain.skip(1)),
            None => None,
        }
    }
}

/// A walk that has ended stays as it is, whatever events follow.
pub proof fn lemma_stopped_walk_stays(
    policy: ConnectionConfig,
    state: WalkStateView,
    events: Seq<HopEvent>,
)
    requires
        !(state is Following),
    ensures
        walk_spec(policy, state, events) == state,
{
}

/// After a chain of redirects within the limit the walk is still under way:
/// it has counted every redirect of the chain, and the one request that is
/// outstanding goes to the URL that the chain led to. So a chain of `k`
/// redirects and the response after it take `k + 1` requests, one after
/// another.
pub proof fn lemma_walk_is_under_way(policy: ConnectionConfig, walk: WalkView, chain: Seq<HopEvent>)
    requires
        policy.onredirect.spec_follows(),
        walk.hops + chain.len() <= policy.max_redirs,
        target_after(walk.url, chain) is Some,
    ensures
        walk_spec(policy, WalkStateView::Following(walk), chain) matches WalkStateView::Following(
            now,
        ) && now.url == target_after(walk.url, chain)->Some_0 && now.hops == walk.hops
            + chain.len(),
    decreases chain.len(),
{
    if chain.len() > 0 {
        let next = step_spec(policy, walk, chain[0]);
        assert(next is Following);
        lemma_walk_is_under_way(policy, next->Following_0, chain.skip(1));
    }
}

/// A chain of redirects within the limit, followed by a response that does
/// not redirect, ends in that response, and the walk has counted every
/// redirect of the chain.
pub proof fn lemma_walk_follows_chain(
    policy: ConnectionConfig,
    walk: WalkView,
    chain: Seq<HopEvent>,
    response: Response,
    peer: SocketAddress,
)
    requires
        policy.onredirect.spec_follows(),
        walk.hops + chain.len() <= policy.max_redirs,
        target_after(walk.url, chain) is Some,
        redirect_target(response) is None,
    ensures
        walk_spec(
            policy,
            WalkStateView::Following(walk),
            chain.push(HopEvent::Answered(response, peer)),
        ) == WalkStateView::StoppedOk(
            FinalResponse { response, redirects: (walk.hops + chain.len()) as usize },
        ),
    decreases chain.len(),
{
    let last = HopEvent::Answered(response, peer);
    let events = chain.push(last);
    if chain.len() == 0 {
        assert(events[0] == last);
        lemma_stopped_walk_stays(policy, step_spec(policy, walk, last), events.skip(1));
    } else {
        assert(events[0] == chain[0]);
        assert(events.skip(1) =~= chain.skip(1).push(last));
        let next = step_spec(policy, walk, chain[0]);
        assert(next is Following);
        lemma_walk_follows_chain(policy, next->Following_0, chain.skip(1), response, peer);
        assert(walk_spec(policy, WalkStateView::Following(walk), events) == walk_spec(
            policy,
            next,
            events.skip(1),
        ));
    }
}

/// A chain of as many redirects as the policy allows, followed by one more
/// redirect, ends the walk at the limit, whatever events follow.
pub proof fn lemma_walk_stops_at_limit(
    policy: ConnectionConfig,
    walk: WalkView,
    chain: Seq<HopEvent>,
    response: Response,
    peer: SocketAddress,
    rest: Seq<HopEvent>,
)
    requires
        policy.onredirect.spec_follows(),
        walk.hops + chain.len() == policy.max_redirs,
        target_after(walk.url, chain) is Some,
        redirect_target(response) is Some,
    ensures
        walk_spec(
            policy,
            WalkStateView::Following(walk),
            chain.push(HopEvent::Answered(response, peer)) + rest,
        ) == WalkStateView::StoppedLimit(
            WalkErrorView {
                kind: WalkErrorKind::RedirectLimit,
                target: target_after(walk.url, chain)->Some_0,
            },
        ),
    decreases chain.len(),
{
    let last = HopEvent::Answered(response, peer);
    let events = chain.push(last) + rest;
    if chain.len() == 0 {
        assert(events[0] == last);
        lemma_stopped_walk_stays(policy, step_spec(policy, walk, last), events.skip(1));
    } else {
        assert(events[0] == chain[0]);
        assert(events.skip(1) =~= chain.skip(1).push(last) + rest);
        let next = step_spec(policy, walk, chain[0]);
        assert(next is Following);
        lemma_walk_stops_at_limit(policy, next->Following_0, chain.skip(1), response, peer, rest);
    }
}

/// A walk never follows more redirects than the policy allows: neither the
/// count of a walk under way nor that of a final response exceeds the
/// limit.
pub proof fn lemma_hops_within_limit(
    policy: ConnectionConfig,
    walk: WalkView,
    events: Seq<HopEvent>,
)
    requires
        walk.hops <= policy.max_redirs,
    ensures
        match walk_spec(policy, WalkStateView::Following(walk), events) {
            WalkStateView::Following(w) => w.hops <= policy.max_redirs,
            WalkStateView::StoppedOk(f) => f.redirects <= policy.max_redirs,
            WalkStateView::StoppedByPolicy(f) => f.redirects <= policy.max_redirs,
            _ => true,
        },
    decreases events.len(),
{
    if events.len() > 0 {
        let next = step_spec(policy, walk, events[0]);
        match next {
            WalkStateView::Following(w) => {
                lemma_hops_within_limit(policy, w, events.skip(1));
            },
            _ => {
                lemma_stopped_walk_stays(policy, next, events.skip(1));
            },
        }
    }
}

/// A walk ends within a bounded number of requests: once it has had one
/// answer more than it may still follow redirects, it is over.
pub proof fn lemma_walk_ends(policy: ConnectionConfig, walk: WalkView, events: Seq<HopEvent>)
    requires
        walk.hops <= policy.max_redirs,
        events.len() > policy.max_redirs - walk.hops,
    ensures
        !(walk_spec(policy, WalkStateView::Following(walk), events) is Following),
    decreases events.len(),
{
    let next = step_spec(policy, walk, events[0]);
    match next {
        WalkStateView::Following(w) => {
            lemma_walk_ends(policy, w, events.skip(1));
        },
        _ => {
            lemma_stopped_walk_stays(policy, next, events.skip(1));
        },
    }
}

} // verus!
