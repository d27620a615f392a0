//! The client side of the boundary: the endpoint of the local service and
//! the addresses of its resources, the state machine that turns repeated
//! polls into one ordered stream of events, and the bootstrap that finds a
//! free port for the service by random choice with a bounded retry.

use crate::api::{first_of, hyphenated, hyphenated_of};
use crate::boundary::window;
use vstd::prelude::*;
use vstd::string::*;

verus! {

/// How many random ports the bootstrap tries before it gives up.
pub const BIND_ATTEMPTS: usize = 20;

/// The digit `d`, which is below ten.
pub open spec fn digit_char(d: nat) -> char {
    if d == 0 { '0' } else if d == 1 { '1' } else if d == 2 { '2' } else if d == 3 { '3' }
    else if d == 4 { '4' } else if d == 5 { '5' } else if d == 6 { '6' } else if d == 7 { '7' }
    else if d == 8 { '8' } else { '9' }
}

/// The decimal text of `n`, without leading zeros.
pub open spec fn decimal(n: nat) -> Seq<char>
    decreases n,
{
    if n < 10 {
        seq![digit_char(n)]
    } else {
        decimal(n / 10) + seq![digit_char(n % 10)]
    }
}

/// Relies on the `Display` of `u16`, which writes the number in decimal.
#[verifier::external_body]
fn decimal_text(n: u16) -> (r: String)
    ensures
        r@ == decimal(n as nat),
{
    n.to_string()
}

/// Relies on `rand::random`: a port drawn from the whole 16-bit range.
#[verifier::external_body]
fn random_port() -> (r: u16) {
    rand::random::<u16>()
}

/// The address of the local service listening on `port`.
pub open spec fn endpoint_for(port: u16) -> Seq<char> {
    "http://127.0.0.1:"@ + decimal(port as nat)
}

/// Why a request could not be addressed.
#[derive(Clone, Copy, Debug, PartialEq, Eq, Structural)]
pub enum ClientError {
    /// The path of a start request does not begin with `/`.
    UrlWithoutSlash,
}

/// A client of the boundary service at one endpoint.
#[derive(Clone, Debug)]
pub struct Client {
    endpoint: String,
}

impl Client {
    pub closed spec fn endpoint(&self) -> Seq<char> {
        self.endpoint@
    }

    /// The client of the service listening locally on `port`.
    pub fn for_port(port: u16) -> (r: Client)
        ensures
            r.endpoint() == endpoint_for(port),
    {
        let prefix = String::from_str("http://127.0.0.1:");
        let digits = decimal_text(port);
        proof {
            reveal_strlit("http://127.0.0.1:");
        }
        Client { endpoint: prefix.concat(digits.as_str()) }
    }

    /// The client of the service at `endpoint`.
    pub fn with_endpoint(endpoint: String) -> (r: Client)
        ensures
            r.endpoint() == endpoint@,
    {
        Client { endpoint }
    }

    /// The service's address.
    pub fn endpoint_str(&self) -> (r: &str)
        ensures
            r@ == self.endpoint(),
    {
        self.endpoint.as_str()
    }

    /// The address of a start request for the workflow at path `url`, which
    /// must begin with `/`.
    pub fn start_url(&self, url: &str) -> (r: Result<String, ClientError>)
        ensures
            (url@.len() > 0 && url@[0] == '/') ==> (r matches Ok(s) && s@ == self.endpoint() + url@),
            !(url@.len() > 0 && url@[0] == '/') ==> r == Err::<String, ClientError>(
                ClientError::UrlWithoutSlash,
            ),
    {
        if url.unicode_len() == 0 || url.get_char(0) != '/' {
            return Err(ClientError::UrlWithoutSlash);
        }
        Ok(self.endpoint.clone().concat(url))
    }

    /// The address of operation `id`, which polls go to.
    pub fn operation_url(&self, id: u128) -> (r: String)
        ensures
            r@ == self.endpoint() + "/operations/"@ + hyphenated_of(id),
    {
        let base = self.endpoint.clone().concat("/operations/");
        let text = hyphenated(id);
        base.concat(text.as_str())
    }
}

/// What one poll response contributes to the stream: nothing when it
/// carried no event, the event, or the error, which ends the stream.
pub open spec fn response_item<T, E>(res: Result<Option<T>, E>) -> Option<Result<T, E>> {
    match res {
        Ok(None) => None,
        Ok(Some(v)) => Some(Ok(v)),
        Err(e) => Some(Err(e)),
    }
}

/// The items a stream yields when its polls, one after another, get the
/// responses `responses` and its consumer stays interested.
pub open spec fn stream_items<T, E>(responses: Seq<Result<Option<T>, E>>) -> Seq<Result<T, E>>
    decreases responses.len(),
{
    if responses.len() == 0 {
        Seq::empty()
    } else {
        let head = match response_item(responses[0]) {
            Some(item) => seq![item],
            None => Seq::empty(),
        };
        if responses[0] is Err {
            head
        } else {
            head + stream_items(responses.drop_first())
        }
    }
}

/// How many polls such a stream makes.
pub open spec fn polls_made<T, E>(responses: Seq<Result<Option<T>, E>>) -> nat
    decreases responses.len(),
{
    if responses.len() == 0 {
        0
    } else if responses[0] is Err {
        1
    } else {
        1 + polls_made(responses.drop_first())
    }
}

/// Progress of one client's stream over an operation's events.
#[derive(Clone, Copy, Debug)]
pub struct EventStream {
    cursor: usize,
    had_error: bool,
    cancelled: bool,
}

impl EventStream {
    /// The `skip_events` of the next poll: how many polls were answered.
    pub closed spec fn cursor(&self) -> nat {
        self.cursor as nat
    }

    pub closed spec fn had_error(&self) -> bool {
        self.had_error
    }

    pub closed spec fn cancelled(&self) -> bool {
        self.cancelled
    }

    /// The stream makes no further poll.
    pub open spec fn stopped(&self) -> bool {
        self.had_error() || self.cancelled()
    }

    pub fn new() -> (r: EventStream)
        ensures
            r.cursor() == 0,
            !r.had_error(),
            !r.cancelled(),
    {
        EventStream { cursor: 0, had_error: false, cancelled: false }
    }

    /// The cursor to poll at next, or `None` once the stream has ended:
    /// after an error, or once the consumer is gone (`consumer_alive`
    /// false), which ends it for good.
    pub fn next_request(&mut self, consumer_alive: bool) -> (r: Option<usize>)
        ensures
            final(self).cursor() == old(self).cursor(),
            final(self).had_error() == old(self).had_error(),
            final(self).cancelled() == (old(self).cancelled() || !consumer_alive),
            final(self).stopped() ==> r is None,
            !final(self).stopped() ==> (r matches Some(c) && c as nat == old(self).cursor()),
    {
        if !consumer_alive {
            self.cancelled = true;
        }
        if self.had_error || self.cancelled {
            None
        } else {
            Some(self.cursor)
        }
    }

    /// Takes the response to the poll at the current cursor: the event it
    /// carried (already decoded), nothing, or the error of the round trip or
    /// of the decoding. The cursor moves on by one in every case; an error
    /// is handed on once and ends the stream.
    pub fn on_response<T, E>(&mut self, res: Result<Option<T>, E>) -> (r: Option<Result<T, E>>)
        requires
            !old(self).stopped(),
            old(self).cursor() < usize::MAX,
        ensures
            r == response_item(res),
            final(self).cursor() == old(self).cursor() + 1,
            final(self).had_error() == res is Err,
            !final(self).cancelled(),
    {
        self.cursor = self.cursor + 1;
        match res {
            Ok(None) => None,
            Ok(Some(v)) => Some(Ok(v)),
            Err(e) => {
                self.had_error = true;
                Some(Err(e))
            },
        }
    }
}

/// The first error a stream meets is the last item it yields, and the
/// stream makes no poll after it.
pub proof fn lemma_first_error_ends_stream<T, E>(responses: Seq<Result<Option<T>, E>>, j: int)
    requires
        0 <= j < responses.len(),
        responses[j] is Err,
        forall|k: int| 0 <= k < j ==> responses[k] is Ok,
    ensures
        stream_items(responses) == stream_items(responses.take(j)).push(
            Err(responses[j]->Err_0),
        ),
        forall|i: int| 0 <= i < stream_items(responses.take(j)).len()
            ==> stream_items(responses.take(j))[i] is Ok,
        polls_made(responses) == j + 1,
    decreases j,
{
    if j == 0 {
        assert(responses.take(0) =~= Seq::<Result<Option<T>, E>>::empty());
        assert(seq![Err::<T, E>(responses[0]->Err_0)] =~= Seq::<Result<T, E>>::empty().push(Err(responses[0]->Err_0)));
    } else {
        let rest = responses.drop_first();
        assert forall|k: int| 0 <= k < j - 1 implies rest[k] is Ok by {
            assert(rest[k] == responses[k + 1]);
        }
        lemma_first_error_ends_stream(rest, j - 1);
        assert(responses.take(j).drop_first() =~= rest.take(j - 1));
        assert(responses.take(j)[0] == responses[0]);
        let head = match response_item(responses[0]) {
            Some(item) => seq![item],
            None => Seq::<Result<T, E>>::empty(),
        };
        assert(stream_items(responses.take(j)) == head + stream_items(rest.take(j - 1)));
        assert(stream_items(responses) == head + stream_items(rest));
        assert((head + stream_items(rest.take(j - 1))).push(Err(responses[j]->Err_0))
            =~= head + stream_items(rest.take(j - 1)).push(Err(responses[j]->Err_0)));
        assert forall|i: int| 0 <= i < stream_items(responses.take(j)).len()
            implies stream_items(responses.take(j))[i] is Ok by {
            if i >= head.len() {
                assert(stream_items(responses.take(j))[i] == stream_items(rest.take(j - 1))[i - head.len()]);
            }
        }
    }
}

/// The responses that polls at cursors `start`, `start + 1`, ... up to the
/// end of the log `events` get, each reduced to the event it carries.
pub open spec fn log_responses<E>(events: Seq<serde_json::Value>, start: int) -> Seq<Result<Option<serde_json::Value>, E>> {
    Seq::new((events.len() - start) as nat, |k: int| Ok(first_of(window(events, start + k))))
}

proof fn lemma_polls_rebuild_suffix<E>(events: Seq<serde_json::Value>, start: int)
    requires
        0 <= start <= events.len(),
    ensures
        stream_items(log_responses::<E>(events, start))
            == events.subrange(start, events.len() as int).map_values(|v: serde_json::Value| Ok::<serde_json::Value, E>(v)),
    decreases events.len() - start,
{
    let rs = log_responses::<E>(events, start);
    if start == events.len() {
        assert(rs.len() == 0);
        assert(events.subrange(start, events.len() as int).map_values(|v: serde_json::Value| Ok::<serde_json::Value, E>(v)) =~= Seq::empty());
    } else {
        lemma_polls_rebuild_suffix::<E>(events, start + 1);
        assert(rs.drop_first() =~= log_responses::<E>(events, start + 1));
        assert(window(events, start) =~= seq![events[start]]);
        assert(rs[0] == Ok::<Option<serde_json::Value>, E>(Some(events[start])));
        assert(events.subrange(start, events.len() as int).map_values(|v: serde_json::Value| Ok::<serde_json::Value, E>(v))
            =~= seq![Ok::<serde_json::Value, E>(events[start])] + events.subrange(start + 1, events.len() as int).map_values(|v: serde_json::Value| Ok::<serde_json::Value, E>(v)));
    }
}

/// A stream that polls a log once per cursor, from zero to the log's
/// length, yields every logged event exactly once, unchanged and in the
/// order logged: no gap, no duplicate.
pub proof fn lemma_polls_rebuild_log<E>(events: Seq<serde_json::Value>)
    ensures
        stream_items(log_responses::<E>(events, 0)) == events.map_values(|v: serde_json::Value| Ok::<serde_json::Value, E>(v)),
        polls_made(log_responses::<E>(events, 0)) == events.len(),
{
    lemma_polls_rebuild_suffix::<E>(events, 0);
    assert(events.subrange(0, events.len() as int) =~= events);
    lemma_polls_made_without_error(log_responses::<E>(events, 0));
}

/// A stream whose responses hold no error polls once per response.
proof fn lemma_polls_made_without_error<T, E>(responses: Seq<Result<Option<T>, E>>)
    requires
        forall|k: int| 0 <= k < responses.len() ==> responses[k] is Ok,
    ensures
        polls_made(responses) == responses.len(),
    decreases responses.len(),
{
    if responses.len() > 0 {
        let rest = responses.drop_first();
        assert forall|k: int| 0 <= k < rest.len() implies rest[k] is Ok by {
            assert(rest[k] == responses[k + 1]);
        }
        lemma_polls_made_without_error(rest);
    }
}

/// What the bootstrap does after a bind attempt.
#[derive(Debug)]
pub enum BindAction {
    /// Start the service on this port next.
    TryPort(u16),
    /// The service is up; here is its client.
    Serve(Client),
    /// Every attempt failed; this is the last bind error.
    GiveUp(String),
}

/// How a bootstrap that is at attempt `attempt` ends when its binds
/// report `results`, one per attempt: served on attempt `n` (`Ok(n)`),
/// given up with an error, or not yet decided (`None`).
pub open spec fn bind_run(results: Seq<Result<(), String>>, attempt: nat) -> Option<Result<nat, String>>
    decreases results.len(),
{
    if results.len() == 0 {
        None
    } else {
        match results[0] {
            Ok(_) => Some(Ok(attempt)),
            Err(e) => if attempt < BIND_ATTEMPTS {
                bind_run(results.drop_first(), attempt + 1)
            } else {
                Some(Err(e))
            },
        }
    }
}

/// The retry loop that starts the local service on a random port.
#[derive(Debug)]
pub struct Bootstrap {
    attempts: usize,
}

impl Bootstrap {
    /// Attempts made so far, the current one included.
    pub closed spec fn attempts(&self) -> nat {
        self.attempts as nat
    }

    pub open spec fn wf(&self) -> bool {
        1 <= self.attempts() <= BIND_ATTEMPTS
    }

    /// The first attempt, and the port it tries.
    pub fn begin() -> (r: (Bootstrap, u16))
        ensures
            r.0.wf(),
            r.0.attempts() == 1,
    {
        (Bootstrap { attempts: 1 }, random_port())
    }

    /// Takes the result of binding `port` in the current attempt: on success
    /// the client of that port; on failure a new random port, or, after the
    /// last attempt, the error.
    pub fn on_bind_result(&mut self, port: u16, res: Result<(), String>) -> (r: BindAction)
        requires
            old(self).wf(),
        ensures
            final(self).wf(),
            res is Ok ==> (r matches BindAction::Serve(c) && c.endpoint() == endpoint_for(port)),
            res matches Err(e) ==> (if old(self).attempts() < BIND_ATTEMPTS {
                r is TryPort && final(self).attempts() == old(self).attempts() + 1
            } else {
                r == BindAction::GiveUp(e)
            }),
    {
        match res {
            Ok(_) => BindAction::Serve(Client::for_port(port)),
            Err(e) => {
                if self.attempts < BIND_ATTEMPTS {
                    self.attempts = self.attempts + 1;
                    BindAction::TryPort(random_port())
                } else {
                    BindAction::GiveUp(e)
                }
            },
        }
    }
}

/// From attempt `a`, `k` failed binds followed by a successful one serve
/// on attempt `a + k`, as long as that attempt is within the bound.
proof fn lemma_bind_serves_from(results: Seq<Result<(), String>>, a: nat, k: int)
    requires
        1 <= a,
        0 <= k < results.len(),
        a + k <= BIND_ATTEMPTS,
        forall|i: int| 0 <= i < k ==> results[i] is Err,
        results[k] is Ok,
    ensures
        bind_run(results, a) == Some(Ok::<nat, String>((a + k) as nat)),
    decreases k,
{
    if k > 0 {
        let rest = results.drop_first();
        assert forall|i: int| 0 <= i < k - 1 implies rest[i] is Err by {
            assert(rest[i] == results[i + 1]);
        }
        lemma_bind_serves_from(rest, a + 1, k - 1);
    }
}

/// From attempt `a`, failed binds up to the last attempt give up with the
/// error of the last one.
proof fn lemma_bind_gives_up_from(results: Seq<Result<(), String>>, a: nat)
    requires
        1 <= a <= BIND_ATTEMPTS,
        results.len() >= BIND_ATTEMPTS - a + 1,
        forall|i: int| 0 <= i <= BIND_ATTEMPTS - a ==> results[i] is Err,
    ensures
        bind_run(results, a) == Some(Err::<nat, String>(results[BIND_ATTEMPTS - a]->Err_0)),
    decreases BIND_ATTEMPTS - a,
{
    if a < BIND_ATTEMPTS {
        let rest = results.drop_first();
        assert forall|i: int| 0 <= i <= BIND_ATTEMPTS - (a + 1) implies rest[i] is Err by {
            assert(rest[i] == results[i + 1]);
        }
        lemma_bind_gives_up_from(rest, a + 1);
        assert(rest[BIND_ATTEMPTS - (a + 1)] == results[BIND_ATTEMPTS - a]);
    }
}

/// If the first `k` ports are taken and the next one binds, the bootstrap
/// serves on attempt `k + 1`, provided that is at most the bound.
pub proof fn lemma_bind_serves_after_failures(results: Seq<Result<(), String>>, k: int)
    requires
        0 <= k < results.len(),
        k + 1 <= BIND_ATTEMPTS,
        forall|i: int| 0 <= i < k ==> results[i] is Err,
        results[k] is Ok,
    ensures
        bind_run(results, 1) == Some(Ok::<nat, String>((k + 1) as nat)),
{
    lemma_bind_serves_from(results, 1, k);
}

/// If every attempt up to the bound fails, the bootstrap gives up with the
/// last bind error.
pub proof fn lemma_bind_gives_up(results: Seq<Result<(), String>>)
    requires
        results.len() >= BIND_ATTEMPTS,
        forall|i: int| 0 <= i < BIND_ATTEMPTS ==> results[i] is Err,
    ensures
        bind_run(results, 1) == Some(Err::<nat, String>(results[BIND_ATTEMPTS - 1]->Err_0)),
{
    lemma_bind_gives_up_from(results, 1);
}

} // verus!
