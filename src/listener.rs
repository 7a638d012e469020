//! The single-shot loopback redirect listener, as a state machine.
//!
//! The caller owns the socket: it feeds each incoming request target, clock
//! tick and cancellation to `RedirectListener::handle`, writes back the reply
//! it is given, and releases the port as soon as `is_finished` holds.
use vstd::prelude::*;
use crate::text::starts_with;
use crate::visibility::saturating_add;

verus! {

/// Scheme, host and port the redirect URI points at.
pub const CALLBACK_ORIGIN: &'static str = "http://localhost:8080";

/// Path of the redirect URI.
pub const CALLBACK_PATH: &'static str = "/callback";

/// The full redirect URI registered with the provider.
pub const REDIRECT_URI: &'static str = "http://localhost:8080/callback";

pub const SUCCESS_PAGE: &'static str = "<!DOCTYPE html>
<html>
<head><title>GitHub Authorization</title></head>
<body style=\"font-family: Arial, sans-serif; text-align: center; padding: 50px;\">
<h1 style=\"color: #28a745;\">Authorization Successful!</h1>
<p>You can now close this window.</p>
<script>setTimeout(() => window.close(), 2000);</script>
</body>
</html>
";

pub const FAILURE_PAGE_HEAD: &'static str = "<!DOCTYPE html>
<html>
<head><title>GitHub Authorization</title></head>
<body style=\"font-family: Arial, sans-serif; text-align: center; padding: 50px;\">
<h1 style=\"color: #dc3545;\">&#10007; Authorization Failed</h1>
<p>Error: ";

pub const FAILURE_PAGE_TAIL: &'static str = "</p>
<p>You can close this window and try again.</p>
<script>setTimeout(() => window.close(), 3000);</script>
</body>
</html>
";

pub const WAITING_BODY: &'static str = "Waiting for GitHub callback...";

/// The name/value pairs of a URL's query, as `url` decodes them.
pub type QueryPairs = Seq<(Seq<char>, Seq<char>)>;

pub open spec fn pairs_view(v: Seq<(String, String)>) -> QueryPairs {
    v.map_values(|p: (String, String)| (p.0@, p.1@))
}

/// What `url::Url::parse` followed by `query_pairs` yields for a URL text:
/// `None` where the text is not a URL.
pub uninterp spec fn parsed_query(url: Seq<char>) -> Option<QueryPairs>;

/// Relies on `url::Url::parse`, which fails on a text that is not an absolute
/// URL, and `Url::query_pairs`, which splits the query on `&` and `=` and
/// percent-decodes names and values, in the order they appear.
#[verifier::external_body]
fn query_pairs_of(url: &str) -> (r: Option<Vec<(String, String)>>)
    ensures
        r is Some <==> parsed_query(url@) is Some,
        r is Some ==> pairs_view(r->Some_0@) == parsed_query(url@)->Some_0,
{
    url::Url::parse(url).ok().map(
        |u| u.query_pairs().map(|(k, v)| (k.into_owned(), v.into_owned())).collect(),
    )
}

/// The value of the last pair named `key`: collecting the pairs into a map
/// keeps the last one.
pub open spec fn last_value(pairs: QueryPairs, key: Seq<char>) -> Option<Seq<char>>
    decreases pairs.len(),
{
    if pairs.len() == 0 {
        None
    } else if pairs.last().0 == key {
        Some(pairs.last().1)
    } else {
        last_value(pairs.drop_last(), key)
    }
}

/// The value of the last pair named `key`.
pub fn last_value_of(pairs: &Vec<(String, String)>, key: &str) -> (r: Option<String>)
    ensures
        r is Some <==> last_value(pairs_view(pairs@), key@) is Some,
        r is Some ==> r->Some_0@ == last_value(pairs_view(pairs@), key@)->Some_0,
{
    let key = String::from_str(key);
    let mut found: Option<String> = None;
    let mut i: usize = 0;
    while i < pairs.len()
        invariant
            i <= pairs@.len(),
            found is Some <==> last_value(pairs_view(pairs@.take(i as int)), key@) is Some,
            found is Some ==> found->Some_0@ == last_value(
                pairs_view(pairs@.take(i as int)),
                key@,
            )->Some_0,
        decreases pairs.len() - i,
    {
        let ghost prev = pairs_view(pairs@.take(i as int));
        let ghost next = pairs_view(pairs@.take(i + 1));
        assert(next.drop_last() =~= prev);
        assert(next.last() == (pairs@[i as int].0@, pairs@[i as int].1@));
        if pairs[i].0 == key {
            found = Some(pairs[i].1.clone());
        }
        i = i + 1;
    }
    assert(pairs@.take(pairs@.len() as int) =~= pairs@);
    found
}

/// How one request that reached the listener is to be treated.
#[derive(Clone, Debug, PartialEq, Eq)]
pub enum CallbackKind {
    /// The provider granted a code.
    Code(String),
    /// The provider reported an error (the user denied, or it failed).
    Denied(String),
    /// Anything else: a pre-flight, a favicon, a malformed callback.
    NotTerminal,
}

pub enum CallbackModel {
    Code(Seq<char>),
    Denied(Seq<char>),
    NotTerminal,
}

impl View for CallbackKind {
    type V = CallbackModel;

    open spec fn view(&self) -> CallbackModel {
        match self {
            CallbackKind::Code(c) => CallbackModel::Code(c@),
            CallbackKind::Denied(e) => CallbackModel::Denied(e@),
            CallbackKind::NotTerminal => CallbackModel::NotTerminal,
        }
    }
}

/// Classification of a callback's decoded query: a `code` wins over an
/// `error`; with neither the callback is malformed and not terminal.
pub open spec fn classify_pairs(pairs: Option<QueryPairs>) -> CallbackModel {
    match pairs {
        None => CallbackModel::NotTerminal,
        Some(p) => match last_value(p, "code"@) {
            Some(c) => CallbackModel::Code(c),
            None => match last_value(p, "error"@) {
                Some(e) => CallbackModel::Denied(e),
                None => CallbackModel::NotTerminal,
            },
        },
    }
}

pub open spec fn has_prefix(s: Seq<char>, prefix: Seq<char>) -> bool {
    prefix.len() <= s.len() && s.subrange(0, prefix.len() as int) == prefix
}

/// Classification of a request target (path and query) against the
/// expected callback path.
pub open spec fn classify_target(expected_path: Seq<char>, target: Seq<char>) -> CallbackModel {
    if has_prefix(target, expected_path) {
        classify_pairs(parsed_query(CALLBACK_ORIGIN@ + target))
    } else {
        CallbackModel::NotTerminal
    }
}

/// Classifies an already decoded query (`None`: the URL did not parse).
pub fn classify_pairs_of(pairs: Option<&Vec<(String, String)>>) -> (r: CallbackKind)
    ensures
        r@ == classify_pairs(
            match pairs {
                Some(p) => Some(pairs_view(p@)),
                None => None,
            },
        ),
{
    match pairs {
        None => CallbackKind::NotTerminal,
        Some(p) => match last_value_of(p, "code") {
            Some(c) => CallbackKind::Code(c),
            None => match last_value_of(p, "error") {
                Some(e) => CallbackKind::Denied(e),
                None => CallbackKind::NotTerminal,
            },
        },
    }
}

/// Classifies a request target received by the listener.
pub fn classify_target_of(expected_path: &str, target: &str) -> (r: CallbackKind)
    ensures
        r@ == classify_target(expected_path@, target@),
{
    if !starts_with(target, expected_path) {
        return CallbackKind::NotTerminal;
    }
    let url = String::from_str(CALLBACK_ORIGIN).concat(target);
    let pairs = query_pairs_of(url.as_str());
    match pairs {
        Some(p) => classify_pairs_of(Some(&p)),
        None => classify_pairs_of(None),
    }
}

/// The one outcome of an acquisition attempt.
#[derive(Clone, Debug, PartialEq, Eq)]
pub enum AuthorizationResult {
    Code(String),
    Denied(String),
    TimedOut,
    Cancelled,
}

pub enum AuthorizationModel {
    Code(Seq<char>),
    Denied(Seq<char>),
    TimedOut,
    Cancelled,
}

impl View for AuthorizationResult {
    type V = AuthorizationModel;

    open spec fn view(&self) -> AuthorizationModel {
        match self {
            AuthorizationResult::Code(c) => AuthorizationModel::Code(c@),
            AuthorizationResult::Denied(e) => AuthorizationModel::Denied(e@),
            AuthorizationResult::TimedOut => AuthorizationModel::TimedOut,
            AuthorizationResult::Cancelled => AuthorizationModel::Cancelled,
        }
    }
}

/// An input to the listener; times are milliseconds on a monotonic clock.
#[derive(Clone, Debug, PartialEq, Eq)]
pub enum ListenerEvent {
    /// A request arrived with this target (path and query).
    Request { target: String, now_ms: u64 },
    /// No request came; the clock moved on.
    Tick { now_ms: u64 },
    /// The user gave up the sign-in.
    Cancel,
}

pub enum ListenerEventModel {
    Request { target: Seq<char>, now_ms: u64 },
    Tick { now_ms: u64 },
    Cancel,
}

impl View for ListenerEvent {
    type V = ListenerEventModel;

    open spec fn view(&self) -> ListenerEventModel {
        match self {
            ListenerEvent::Request { target, now_ms } => ListenerEventModel::Request {
                target: target@,
                now_ms: *now_ms,
            },
            ListenerEvent::Tick { now_ms } => ListenerEventModel::Tick { now_ms: *now_ms },
            ListenerEvent::Cancel => ListenerEventModel::Cancel,
        }
    }
}

/// What to write back to the request that was handled.
#[derive(Clone, Debug, PartialEq, Eq)]
pub enum ListenerReply {
    /// No request to answer, or the listener is done with it.
    Nothing,
    /// The neutral placeholder body.
    Waiting,
    /// The page that confirms the grant.
    Success,
    /// The page that reports the provider's error.
    Failure(String),
}

pub enum ReplyModel {
    Nothing,
    Waiting,
    Success,
    Failure(Seq<char>),
}

impl View for ListenerReply {
    type V = ReplyModel;

    open spec fn view(&self) -> ReplyModel {
        match self {
            ListenerReply::Nothing => ReplyModel::Nothing,
            ListenerReply::Waiting => ReplyModel::Waiting,
            ListenerReply::Success => ReplyModel::Success,
            ListenerReply::Failure(e) => ReplyModel::Failure(e@),
        }
    }
}

pub open spec fn failure_page(error: Seq<char>) -> Seq<char> {
    FAILURE_PAGE_HEAD@ + error + FAILURE_PAGE_TAIL@
}

/// The HTML or text body that answers a request.
pub open spec fn reply_body(r: ReplyModel) -> Seq<char> {
    match r {
        ReplyModel::Nothing => seq![],
        ReplyModel::Waiting => WAITING_BODY@,
        ReplyModel::Success => SUCCESS_PAGE@,
        ReplyModel::Failure(e) => failure_page(e),
    }
}

impl ListenerReply {
    /// The body to send for this reply.
    pub fn body(&self) -> (r: String)
        ensures
            r@ == reply_body(self@),
    {
        match self {
            ListenerReply::Nothing => String::new(),
            ListenerReply::Waiting => String::from_str(WAITING_BODY),
            ListenerReply::Success => String::from_str(SUCCESS_PAGE),
            ListenerReply::Failure(e) => {
                let mut page = String::from_str(FAILURE_PAGE_HEAD);
                page.append(e.as_str());
                page.append(FAILURE_PAGE_TAIL);
                page
            },
        }
    }

    /// Whether the reply is an HTML page rather than plain text.
    pub fn is_html(&self) -> (r: bool)
        ensures
            r == (self@ is Success || self@ is Failure),
    {
        match self {
            ListenerReply::Success => true,
            ListenerReply::Failure(_) => true,
            _ => false,
        }
    }
}

pub struct ListenerModel {
    pub expected_path: Seq<char>,
    pub deadline_ms: u64,
    pub outcome: Option<AuthorizationModel>,
}

/// The listener's state: it is finished once `outcome` holds a result.
pub struct RedirectListener {
    pub expected_path: String,
    pub deadline_ms: u64,
    pub outcome: Option<AuthorizationResult>,
}

impl View for RedirectListener {
    type V = ListenerModel;

    open spec fn view(&self) -> ListenerModel {
        ListenerModel {
            expected_path: self.expected_path@,
            deadline_ms: self.deadline_ms,
            outcome: match self.outcome {
                Some(o) => Some(o@),
                None => None,
            },
        }
    }
}

/// One transition of the listener: its next state and the reply to write.
pub open spec fn listener_step(l: ListenerModel, e: ListenerEventModel) -> (ListenerModel, ReplyModel) {
    if l.outcome is Some {
        (l, ReplyModel::Nothing)
    } else {
        match e {
            ListenerEventModel::Cancel => (
                ListenerModel { outcome: Some(AuthorizationModel::Cancelled), ..l },
                ReplyModel::Nothing,
            ),
            ListenerEventModel::Tick { now_ms } => {
                if now_ms >= l.deadline_ms {
                    (
                        ListenerModel { outcome: Some(AuthorizationModel::TimedOut), ..l },
                        ReplyModel::Nothing,
                    )
                } else {
                    (l, ReplyModel::Nothing)
                }
            },
            ListenerEventModel::Request { target, now_ms } => {
                if now_ms >= l.deadline_ms {
                    (
                        ListenerModel { outcome: Some(AuthorizationModel::TimedOut), ..l },
                        ReplyModel::Nothing,
                    )
                } else {
                    match classify_target(l.expected_path, target) {
                        CallbackModel::Code(c) => (
                            ListenerModel { outcome: Some(AuthorizationModel::Code(c)), ..l },
                            ReplyModel::Success,
                        ),
                        CallbackModel::Denied(err) => (
                            ListenerModel { outcome: Some(AuthorizationModel::Denied(err)), ..l },
                            ReplyModel::Failure(err),
                        ),
                        CallbackModel::NotTerminal => (l, ReplyModel::Waiting),
                    }
                }
            },
        }
    }
}

/// The state after a sequence of events.
pub open spec fn listener_run(l: ListenerModel, events: Seq<ListenerEventModel>) -> ListenerModel
    decreases events.len(),
{
    if events.len() == 0 {
        l
    } else {
        listener_run(listener_step(l, events[0]).0, events.drop_first())
    }
}

/// How many result pages (success or failure) a sequence of events makes
/// the listener send.
pub open spec fn result_pages(l: ListenerModel, events: Seq<ListenerEventModel>) -> nat
    decreases events.len(),
{
    if events.len() == 0 {
        0
    } else {
        let (n, r) = listener_step(l, events[0]);
        let here: nat = if r is Success || r is Failure {
            1
        } else {
            0
        };
        here + result_pages(n, events.drop_first())
    }
}

/// Once the listener has an outcome, no sequence of events changes it and no
/// further result page is sent.
pub proof fn lemma_outcome_is_final(l: ListenerModel, events: Seq<ListenerEventModel>)
    requires
        l.outcome is Some,
    ensures
        listener_run(l, events) == l,
        result_pages(l, events) == 0,
    decreases events.len(),
{
    if events.len() > 0 {
        lemma_outcome_is_final(l, events.drop_first());
    }
}

/// Whatever requests arrive, a listener sends at most one result page, and
/// it sends one exactly when it ends with a code or a denial.
pub proof fn lemma_single_terminal_outcome(l: ListenerModel, events: Seq<ListenerEventModel>)
    requires
        l.outcome is None,
    ensures
        result_pages(l, events) <= 1,
        result_pages(l, events) == 1 <==> (listener_run(l, events).outcome matches Some(o) && (
        o is Code || o is Denied)),
    decreases events.len(),
{
    if events.len() > 0 {
        let (n, r) = listener_step(l, events[0]);
        if n.outcome is Some {
            lemma_outcome_is_final(n, events.drop_first());
        } else {
            lemma_single_terminal_outcome(n, events.drop_first());
        }
    }
}

/// A cancellation, or any event at or after the deadline, leaves the listener
/// with an outcome: it cannot stay bound forever.
pub proof fn lemma_cancel_or_deadline_finishes(
    l: ListenerModel,
    events: Seq<ListenerEventModel>,
    i: int,
)
    requires
        0 <= i < events.len(),
        events[i] is Cancel || (events[i] matches ListenerEventModel::Tick { now_ms }
            && now_ms >= l.deadline_ms) || (events[i] matches ListenerEventModel::Request {
            now_ms,
            ..
        } && now_ms >= l.deadline_ms),
    ensures
        listener_run(l, events).outcome is Some,
    decreases events.len(),
{
    let n = listener_step(l, events[0]).0;
    if l.outcome is Some {
        lemma_outcome_is_final(l, events);
    } else if i == 0 {
        lemma_outcome_is_final(n, events.drop_first());
    } else {
        assert(n.deadline_ms == l.deadline_ms);
        assert(events.drop_first()[i - 1] == events[i]);
        lemma_cancel_or_deadline_finishes(n, events.drop_first(), i - 1);
    }
}

impl RedirectListener {
    /// A listener waiting for `expected_path` until `timeout_ms` after `now_ms`.
    pub fn start(expected_path: &str, now_ms: u64, timeout_ms: u64) -> (r: RedirectListener)
        ensures
            r@.expected_path == expected_path@,
            r@.deadline_ms == saturating_add(now_ms, timeout_ms),
            r@.outcome is None,
    {
        RedirectListener {
            expected_path: String::from_str(expected_path),
            deadline_ms: now_ms.saturating_add(timeout_ms),
            outcome: None,
        }
    }

    /// Whether the listener is done, and its port is to be released.
    pub fn is_finished(&self) -> (r: bool)
        ensures
            r == self@.outcome is Some,
    {
        self.outcome.is_some()
    }

    /// Handles one event and returns the reply to write back.
    pub fn handle(&mut self, event: ListenerEvent) -> (reply: ListenerReply)
        ensures
            (final(self)@, reply@) == listener_step(old(self)@, event@),
    {
        if self.outcome.is_some() {
            return ListenerReply::Nothing;
        }
        match event {
            ListenerEvent::Cancel => {
                self.outcome = Some(AuthorizationResult::Cancelled);
                ListenerReply::Nothing
            },
            ListenerEvent::Tick { now_ms } => {
                if now_ms >= self.deadline_ms {
                    self.outcome = Some(AuthorizationResult::TimedOut);
                }
                ListenerReply::Nothing
            },
            ListenerEvent::Request { target, now_ms } => {
                if now_ms >= self.deadline_ms {
                    self.outcome = Some(AuthorizationResult::TimedOut);
                    return ListenerReply::Nothing;
                }
                match classify_target_of(self.expected_path.as_str(), target.as_str()) {
                    CallbackKind::Code(c) => {
                        self.outcome = Some(AuthorizationResult::Code(c));
                        ListenerReply::Success
                    },
                    CallbackKind::Denied(err) => {
                        let shown = err.clone();
                        self.outcome = Some(AuthorizationResult::Denied(err));
                        ListenerReply::Failure(shown)
                    },
                    CallbackKind::NotTerminal => ListenerReply::Waiting,
                }
            },
        }
    }
}

} // verus!
