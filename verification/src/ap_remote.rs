//! The batched protocol: newline-delimited batches of requests, answered by
//! batches of responses, with guards that make a batch conditional on what
//! memory holds.

use base64::Engine;
use vstd::prelude::*;
use vstd::string::StringExecFns;
use crate::numbers::{decimal, push_decimal};
use crate::runtime::{Core, CoreView, Domain};
use crate::text::{
    chars_of, debug_format, debug_text, eq_ignore_ascii_case, equal_ignoring_ascii_case,
    push_text, same_bytes, string_of, trim_bounds, trimmed,
};

pub mod request;
pub mod response;

pub use request::{Request, RequestView};
pub use response::{Response, ResponseView};

verus! {

/// Version of the batched protocol.
pub const VERSION: u8 = 1;

/// The first port that the listener tries.
pub const FIRST_PORT: u16 = 43055;

/// How many ports the listener tries, counting up from the first.
pub const NUM_PORTS: u16 = 5;

/// The error text for a request whose domain is not a domain.
pub open spec fn unknown_domain_message(domain: Seq<char>) -> Seq<char> {
    "Unknown memory domain: "@ + debug_text(domain)
}

/// The response to a guard at `address` that expects `expected_data` where
/// memory holds `data`: the guard passes where the two are the same bytes.
pub open spec fn guard_response(address: usize, expected_data: Seq<u8>, data: Seq<u8>) -> ResponseView {
    ResponseView::GuardResponse { value: data == expected_data, address }
}

/// The response that `request` gets from a runtime in state `core`.
pub open spec fn response_to(request: RequestView, core: CoreView) -> ResponseView {
    match request {
        RequestView::Version => ResponseView::Version,
        RequestView::Ping => ResponseView::Pong,
        RequestView::System => ResponseView::SystemResponse { value: "GBA"@ },
        RequestView::PreferredCores => ResponseView::Error {
            err: "TODO: unimplemented command: PreferredCores"@,
        },
        RequestView::Hash => ResponseView::HashResponse { value: core.state.sha1_romhash },
        RequestView::Guard { address, expected_data, domain } => match Domain::named(domain) {
            Some(d) => guard_response(
                address,
                expected_data,
                core.domain_bytes(d, address as int, expected_data.len() as int),
            ),
            None => ResponseView::Error { err: unknown_domain_message(domain) },
        },
        RequestView::Lock => ResponseView::Error { err: "TODO: unimplemented command: Lock"@ },
        RequestView::Unlock => ResponseView::Error {
            err: "TODO: unimplemented command: Unlock"@,
        },
        RequestView::Read { address, size, domain } => match Domain::named(domain) {
            Some(d) => ResponseView::ReadResponse {
                value: core.domain_bytes(d, address as int, size as int),
            },
            None => ResponseView::Error { err: unknown_domain_message(domain) },
        },
        RequestView::Write { address, value } => ResponseView::WriteResponse,
        RequestView::DisplayMessage { message } => ResponseView::Error {
            err: "TODO: unimplemented command: DisplayMessage"@,
        },
        RequestView::SetMessageInterval { value } => ResponseView::Error {
            err: "TODO: unimplemented command: SetMessageInterval"@,
        },
    }
}

/// The runtime after `request`: only a write changes it, and only the bytes
/// of the live address space that the write reaches.
pub open spec fn core_after(request: RequestView, core: CoreView) -> CoreView {
    match request {
        RequestView::Write { address, value } => core.after_write(
            Domain::SystemBus,
            address as int,
            value,
        ),
        _ => core,
    }
}

fn unknown_domain(domain: &str) -> (r: Response)
    ensures
        r@ == (ResponseView::Error { err: unknown_domain_message(domain@) }),
{
    let quoted = debug_format(domain);
    Response::Error { err: String::from_str("Unknown memory domain: ").concat(quoted.as_str()) }
}

fn unimplemented(message: &str) -> (r: Response)
    ensures
        r@ == (ResponseView::Error { err: message@ }),
{
    Response::Error { err: String::from_str(message) }
}

/// Answers one request against the runtime.
pub fn handle_request(request: Request, core: &mut Core) -> (r: Response)
    ensures
        r@ == response_to(request@, old(core)@),
        final(core)@ == core_after(request@, old(core)@),
{
    match request {
        Request::Version => Response::Version,
        Request::Ping => Response::Pong,
        Request::System => Response::SystemResponse { value: String::from_str("GBA") },
        Request::PreferredCores => unimplemented("TODO: unimplemented command: PreferredCores"),
        Request::Hash => Response::HashResponse { value: core.get_sha1_romhash() },
        Request::Guard { address, expected_data, domain } => {
            match Domain::from_name(domain.as_str()) {
                Some(d) => {
                    let data = core.read_domain(d, address, expected_data.len());
                    let is_match = same_bytes(data.as_slice(), expected_data.as_slice());
                    Response::GuardResponse { value: is_match, address }
                },
                None => unknown_domain(domain.as_str()),
            }
        },
        Request::Lock => unimplemented("TODO: unimplemented command: Lock"),
        Request::Unlock => unimplemented("TODO: unimplemented command: Unlock"),
        Request::Read { address, size, domain } => {
            match Domain::from_name(domain.as_str()) {
                Some(d) => Response::ReadResponse { value: core.read_domain(d, address, size) },
                None => unknown_domain(domain.as_str()),
            }
        },
        Request::Write { address, value } => {
            core.write_memory(address, value.as_slice());
            Response::WriteResponse
        },
        Request::DisplayMessage { message } => unimplemented(
            "TODO: unimplemented command: DisplayMessage",
        ),
        Request::SetMessageInterval { value } => unimplemented(
            "TODO: unimplemented command: SetMessageInterval",
        ),
    }
}

/// Outcome of a guard: whether memory matched, and where.
#[derive(Clone, Copy, Debug, PartialEq, Eq, Structural)]
pub struct Guard {
    pub value: bool,
    pub address: usize,
}

impl Guard {
    /// The response that reports this outcome.
    pub open spec fn response(self) -> ResponseView {
        ResponseView::GuardResponse { value: self.value, address: self.address }
    }
}

/// What a connection carries from one request to the next.
#[derive(Clone, Copy, Debug, PartialEq, Eq, Structural)]
pub struct Batch {
    pub is_locked: bool,
    pub held_guard: Option<Guard>,
}

/// A batch in progress: its state, the runtime, and the responses gathered
/// so far.
pub ghost struct Progress {
    pub batch: Batch,
    pub core: CoreView,
    pub responses: Seq<ResponseView>,
}

/// The responses that a held guard puts before the response of the next
/// request.
pub open spec fn held_prefix(batch: Batch) -> Seq<ResponseView> {
    match batch.held_guard {
        Some(guard) => seq![guard.response()],
        None => seq![],
    }
}

/// Whether the batch holds a guard that failed, so that no further request
/// takes effect.
pub open spec fn short_circuited(batch: Batch) -> bool {
    batch.held_guard matches Some(guard) && !guard.value
}

/// One request further.
///
/// A held guard response goes out before anything else. Then, where the held
/// guard failed, the request is not run and the failure stands in for its
/// response. Otherwise the request is run: a guard response is held back, in
/// place of the one held before; `Locked` and `Unlocked` set the mode; every
/// response but a guard's is appended.
pub open spec fn after_request(p: Progress, request: RequestView) -> Progress {
    let gathered = p.responses + held_prefix(p.batch);
    if short_circuited(p.batch) {
        Progress { responses: gathered.push(p.batch.held_guard->0.response()), ..p }
    } else {
        let response = response_to(request, p.core);
        let core = core_after(request, p.core);
        match response {
            ResponseView::GuardResponse { value, address } => Progress {
                batch: Batch { held_guard: Some(Guard { value, address }), ..p.batch },
                core,
                responses: gathered,
            },
            ResponseView::Locked => Progress {
                batch: Batch { is_locked: true, ..p.batch },
                core,
                responses: gathered.push(response),
            },
            ResponseView::Unlocked => Progress {
                batch: Batch { is_locked: false, ..p.batch },
                core,
                responses: gathered.push(response),
            },
            _ => Progress { batch: p.batch, core, responses: gathered.push(response) },
        }
    }
}

/// All of `requests` further, in order.
pub open spec fn after_requests(p: Progress, requests: Seq<RequestView>) -> Progress
    decreases requests.len(),
{
    if requests.len() == 0 {
        p
    } else {
        after_request(after_requests(p, requests.drop_last()), requests.last())
    }
}

/// The views of a vector of requests.
pub open spec fn request_views(requests: Seq<Request>) -> Seq<RequestView> {
    Seq::new(requests.len(), |i: int| requests[i]@)
}

/// The views of a vector of responses.
pub open spec fn response_views(responses: Seq<Response>) -> Seq<ResponseView> {
    Seq::new(responses.len(), |i: int| responses[i]@)
}

impl Batch {
    /// The state of a connection before its first request: unlocked, no
    /// guard held.
    pub fn new() -> (r: Batch)
        ensures
            r == (Batch { is_locked: false, held_guard: None }),
    {
        Batch { is_locked: false, held_guard: None }
    }

    /// Whether the connection, having sent the responses gathered so far,
    /// must receive another line of requests before the batch is complete.
    pub fn is_locked(&self) -> (r: bool)
        ensures
            r == self.is_locked,
    {
        self.is_locked
    }

    /// Answers the requests of one line, in order, against the runtime.
    ///
    /// The response to a guard is held back, not appended. From then on the
    /// held response goes out before the response of every request that
    /// follows, on this line and on later ones, for as long as this state is
    /// kept. Where the held guard failed, the requests that follow are not
    /// run at all: each is answered by the failure in place of its own
    /// response, and nothing they ask for takes effect.
    pub fn handle_requests(&mut self, requests: Vec<Request>, core: &mut Core) -> (r: Vec<Response>)
        ensures
            ({
                let end = after_requests(
                    Progress { batch: *old(self), core: old(core)@, responses: seq![] },
                    request_views(requests@),
                );
                &&& *final(self) == end.batch
                &&& final(core)@ == end.core
                &&& response_views(r@) == end.responses
            }),
    {
        let ghost start = Progress { batch: *self, core: core@, responses: seq![] };
        let ghost all = request_views(requests@);
        let mut responses: Vec<Response> = Vec::new();
        assert(response_views(responses@) =~= start.responses);
        assert(all.take(0) =~= Seq::<RequestView>::empty());
        for request in iter: requests
            invariant
                all == request_views(iter.seq()),
                ({
                    let now = after_requests(start, all.take(iter.index()));
                    &&& *self == now.batch
                    &&& core@ == now.core
                    &&& response_views(responses@) == now.responses
                }),
        {
            let ghost before = after_requests(start, all.take(iter.index()));
            let ghost gathered = response_views(responses@);
            proof {
                let next = all.take(iter.index() + 1);
                assert(next.drop_last() =~= all.take(iter.index()));
                assert(next.last() == request@);
            }
            match self.held_guard {
                Some(guard) => {
                    responses.push(
                        Response::GuardResponse { value: guard.value, address: guard.address },
                    );
                },
                None => {},
            }
            assert(response_views(responses@) =~= gathered + held_prefix(*self));
            let ghost prefixed = response_views(responses@);
            let failed = match self.held_guard {
                Some(guard) => !guard.value,
                None => false,
            };
            if failed {
                let guard = self.held_guard.unwrap();
                responses.push(
                    Response::GuardResponse { value: guard.value, address: guard.address },
                );
                assert(response_views(responses@) =~= prefixed.push(guard.response()));
            } else {
                let response = handle_request(request, core);
                match response {
                    Response::GuardResponse { value, address } => {
                        self.held_guard = Some(Guard { value, address });
                    },
                    Response::Locked => {
                        self.is_locked = true;
                        responses.push(response);
                        assert(response_views(responses@) =~= prefixed.push(response@));
                    },
                    Response::Unlocked => {
                        self.is_locked = false;
                        responses.push(response);
                        assert(response_views(responses@) =~= prefixed.push(response@));
                    },
                    _ => {
                        responses.push(response);
                        assert(response_views(responses@) =~= prefixed.push(response@));
                    },
                }
            }
        }
        assert(all.take(all.len() as int) =~= all);
        responses
    }
}

/// Once a failed guard is held, nothing that follows takes effect: whatever
/// the requests, the runtime and the batch state stay as they are, and each
/// request adds the failed guard's response twice: once as the held
/// response that precedes it, once in place of its own.
pub proof fn lemma_failed_guard_blocks(p: Progress, requests: Seq<RequestView>)
    requires
        short_circuited(p.batch),
    ensures
        ({
            let end = after_requests(p, requests);
            let failure = p.batch.held_guard->0.response();
            &&& end.core == p.core
            &&& end.batch == p.batch
            &&& end.responses.len() == p.responses.len() + 2 * requests.len()
            &&& end.responses.take(p.responses.len() as int) == p.responses
            &&& forall|i: int|
                p.responses.len() <= i < end.responses.len() ==> end.responses[i] == failure
        }),
    decreases requests.len(),
{
    if requests.len() > 0 {
        lemma_failed_guard_blocks(p, requests.drop_last());
        let before = after_requests(p, requests.drop_last());
        let end = after_requests(p, requests);
        assert(end.responses.take(p.responses.len() as int) =~= p.responses);
    } else {
        assert(p.responses.take(p.responses.len() as int) =~= p.responses);
    }
}

/// A batch that opens with a guard on a known domain whose bytes differ from
/// the expected ones leaves the runtime untouched, whatever follows the
/// guard, and answers each request after the guard with the guard's failure,
/// twice.
pub proof fn lemma_failed_guard_batch(
    core: CoreView,
    address: usize,
    expected_data: Seq<u8>,
    domain: Seq<char>,
    rest: Seq<RequestView>,
)
    requires
        Domain::named(domain) matches Some(d) && core.domain_bytes(
            d,
            address as int,
            expected_data.len() as int,
        ) != expected_data,
    ensures
        ({
            let start = Progress {
                batch: Batch { is_locked: false, held_guard: None },
                core,
                responses: seq![],
            };
            let guard = RequestView::Guard { address, expected_data, domain };
            let end = after_requests(start, seq![guard] + rest);
            let failure = ResponseView::GuardResponse { value: false, address };
            &&& end.core == core
            &&& end.responses.len() == 2 * rest.len()
            &&& forall|i: int| 0 <= i < end.responses.len() ==> end.responses[i] == failure
        }),
{
    let start = Progress {
        batch: Batch { is_locked: false, held_guard: None },
        core,
        responses: seq![],
    };
    let guard = RequestView::Guard { address, expected_data, domain };
    lemma_after_requests_split(start, seq![guard], rest);
    let held = after_requests(start, seq![guard]);
    assert(seq![guard].drop_last() =~= Seq::<RequestView>::empty());
    assert(after_requests(start, seq![guard].drop_last()) == start);
    assert(seq![guard].last() == guard);
    assert(held == after_request(start, guard));
    assert(held.responses =~= Seq::<ResponseView>::empty());
    lemma_failed_guard_blocks(held, rest);
}

/// Requests are taken one after the other: a line answered in two parts
/// comes to the same as the line answered whole.
pub proof fn lemma_after_requests_split(
    p: Progress,
    first: Seq<RequestView>,
    second: Seq<RequestView>,
)
    ensures
        after_requests(p, first + second) == after_requests(after_requests(p, first), second),
    decreases second.len(),
{
    if second.len() == 0 {
        assert(first + second =~= first);
    } else {
        lemma_after_requests_split(p, first, second.drop_last());
        assert((first + second).drop_last() =~= first + second.drop_last());
        assert((first + second).last() == second.last());
    }
}

/// Whether `line` is the bare version request: the word `VERSION`, in any
/// case, with nothing but white space around it.
pub open spec fn is_version_line(line: Seq<char>) -> bool {
    eq_ignore_ascii_case(trimmed(line), "VERSION"@)
}

/// The reply to the bare version request: the protocol version on a line of
/// its own, as plain text.
pub open spec fn version_text() -> Seq<char> {
    "1\n"@
}

/// Reads a line that is no JSON: the bare version request gives the one
/// request `Version`. `None` means that the line is a batch, to be decoded
/// as a JSON array of requests.
pub fn parse_requests(line: &str) -> (r: Option<Vec<Request>>)
    ensures
        match r {
            Some(requests) => is_version_line(line@) && request_views(requests@)
                == seq![RequestView::Version],
            None => !is_version_line(line@),
        },
{
    let chars = chars_of(line);
    let (from, to) = trim_bounds(chars.as_slice());
    let word = vstd::slice::slice_subrange(chars.as_slice(), from, to);
    let version = chars_of("VERSION");
    if equal_ignoring_ascii_case(word, version.as_slice()) {
        let mut requests: Vec<Request> = Vec::new();
        requests.push(Request::Version);
        assert(request_views(requests@) =~= seq![RequestView::Version]);
        Some(requests)
    } else {
        None
    }
}

/// What goes back over the connection for one line of requests.
#[derive(Debug)]
pub enum Reply {
    /// The protocol version as one line of plain text.
    Version(String),
    /// The responses, to be sent as one JSON array on a line of its own.
    Batch(Vec<Response>),
}

/// Whether the responses of a line are answered by the plain version line:
/// they are where the first of them is the version response.
pub open spec fn answers_version(responses: Seq<ResponseView>) -> bool {
    responses.len() > 0 && responses[0] == ResponseView::Version
}

/// Frames the responses of one line: the plain version line where the first
/// response is the version response, the batch as it is otherwise.
pub fn frame_responses(responses: Vec<Response>) -> (r: Reply)
    ensures
        match r {
            Reply::Version(text) => answers_version(response_views(responses@)) && text@
                == version_text(),
            Reply::Batch(batch) => !answers_version(response_views(responses@)) && batch
                == responses,
        },
{
    let plain = responses.len() > 0 && match responses[0] {
        Response::Version => true,
        _ => false,
    };
    if plain {
        let mut text: Vec<char> = Vec::new();
        push_decimal(&mut text, VERSION as usize);
        text.push('\n');
        proof {
            reveal_strlit("1\n");
            assert(decimal(1) =~= seq!['1']) by {
                reveal_with_fuel(decimal, 2);
            }
            assert(text@ =~= version_text());
        }
        Reply::Version(string_of(text.as_slice()))
    } else {
        Reply::Batch(responses)
    }
}

impl Batch {
    /// Answers one line of a connection. `requests` is the line as read by
    /// `parse_requests`, or else as decoded from JSON.
    ///
    /// The bare version request is answered by the plain version line
    /// whatever the connection holds, and changes nothing: no held guard
    /// precedes it, and it is never part of a batch.
    pub fn handle_line(&mut self, requests: Vec<Request>, core: &mut Core) -> (r: Reply)
        ensures
            request_views(requests@) == seq![RequestView::Version] ==> {
                &&& r matches Reply::Version(text) && text@ == version_text()
                &&& *final(self) == *old(self)
                &&& final(core)@ == old(core)@
            },
            request_views(requests@) != seq![RequestView::Version] ==> ({
                let end = after_requests(
                    Progress { batch: *old(self), core: old(core)@, responses: seq![] },
                    request_views(requests@),
                );
                &&& *final(self) == end.batch
                &&& final(core)@ == end.core
                &&& match r {
                    Reply::Version(text) => answers_version(end.responses) && text@
                        == version_text(),
                    Reply::Batch(batch) => !answers_version(end.responses) && response_views(
                        batch@,
                    ) == end.responses,
                }
            }),
    {
        let bare = requests.len() == 1 && match requests[0] {
            Request::Version => true,
            _ => false,
        };
        proof {
            let views = request_views(requests@);
            if bare {
                assert(views =~= seq![RequestView::Version]);
            } else if views == seq![RequestView::Version] {
                assert(views.len() == 1);
                assert(views[0] == requests@[0]@);
            }
        }
        if bare {
            let mut only: Vec<Response> = Vec::new();
            only.push(Response::Version);
            assert(response_views(only@)[0] == ResponseView::Version);
            frame_responses(only)
        } else {
            let responses = self.handle_requests(requests, core);
            frame_responses(responses)
        }
    }
}

/// What comes next in the search for a port to listen on.
#[derive(Debug)]
pub enum BindStep {
    /// Try to listen on this port.
    Try(u16),
    /// Every port was tried and none was free: startup fails.
    GiveUp(BindError),
}

/// The failure to listen on any port: every attempt with its port and the
/// reason it failed, in the order tried.
#[derive(Debug)]
pub struct BindError {
    pub attempts: Vec<(u16, String)>,
}

/// The ports tried and the reasons given, for `reasons` in the order of the
/// attempts.
pub open spec fn attempts_of(reasons: Seq<String>) -> Seq<(u16, Seq<char>)> {
    Seq::new(reasons.len(), |i: int| ((FIRST_PORT + i) as u16, reasons[i]@))
}

/// The views of the attempts of a failure.
pub open spec fn attempt_views(attempts: Seq<(u16, String)>) -> Seq<(u16, Seq<char>)> {
    Seq::new(attempts.len(), |i: int| (attempts[i].0, attempts[i].1@))
}

/// Decides the next step of the search for a port, given the reasons why
/// the attempts so far failed, in order. The ports are tried in order from
/// `FIRST_PORT`; after `NUM_PORTS` failures the search gives up, with an
/// error that lists every attempt.
pub fn bind_socket(reasons: Vec<String>) -> (r: BindStep)
    ensures
        match r {
            BindStep::Try(port) => reasons@.len() < NUM_PORTS && port == FIRST_PORT
                + reasons@.len(),
            BindStep::GiveUp(error) => reasons@.len() >= NUM_PORTS && attempt_views(
                error.attempts@,
            ) == attempts_of(reasons@.take(NUM_PORTS as int)),
        },
{
    if reasons.len() < NUM_PORTS as usize {
        return BindStep::Try(FIRST_PORT + reasons.len() as u16);
    }
    let ghost all = reasons@;
    let mut attempts: Vec<(u16, String)> = Vec::new();
    let mut i: usize = 0;
    for reason in iter: reasons
        invariant
            iter.seq() == all,
            all.len() >= NUM_PORTS,
            i == (if iter.index() <= NUM_PORTS { iter.index() } else { NUM_PORTS as int }),
            attempt_views(attempts@) == attempts_of(all.take(i as int)),
    {
        if i < NUM_PORTS as usize {
            let ghost before = attempt_views(attempts@);
            assert(reason == all[i as int]);
            assert(all.take(i as int).len() == i);
            assert(attempts_of(all.take(i as int)).len() == i);
            assert(before.len() == attempts@.len());
            assert(all.take(i + 1).len() == i + 1);
            attempts.push((FIRST_PORT + i as u16, reason));
            proof {
                let now = attempt_views(attempts@);
                let want = attempts_of(all.take(i + 1));
                assert(now.len() == want.len());
                assert forall|k: int| 0 <= k < now.len() implies now[k] == want[k] by {
                    if k < i {
                        assert(now[k] == before[k]);
                        assert(before[k] == attempts_of(all.take(i as int))[k]);
                    }
                }
                assert(now =~= want);
            }
            i += 1;
        }
    }
    BindStep::GiveUp(BindError { attempts })
}

impl BindError {
    /// The error as text: that no port was found, then every attempt on a
    /// line of its own.
    pub fn message(&self) -> (r: String)
        ensures
            r@ == bind_error_text(attempt_views(self.attempts@)),
    {
        let mut out: Vec<char> = Vec::new();
        push_text(&mut out, "no port found to listen on");
        let mut i: usize = 0;
        assert(attempt_views(self.attempts@).take(0) =~= Seq::<(u16, Seq<char>)>::empty());
        while i < self.attempts.len()
            invariant
                i <= self.attempts@.len(),
                out@ == bind_error_text(attempt_views(self.attempts@).take(i as int)),
            decreases self.attempts@.len() - i,
        {
            proof {
                let next = attempt_views(self.attempts@).take(i + 1);
                assert(next.drop_last() =~= attempt_views(self.attempts@).take(i as int));
                assert(next.last() == (self.attempts@[i as int].0, self.attempts@[i as int].1@));
            }
            let ghost before = out@;
            push_text(&mut out, "\nfailed to listen on port ");
            push_decimal(&mut out, self.attempts[i].0 as usize);
            push_text(&mut out, ": ");
            push_text(&mut out, self.attempts[i].1.as_str());
            assert(out@ =~= before + attempt_text(
                (self.attempts@[i as int].0, self.attempts@[i as int].1@),
            ));
            i += 1;
        }
        assert(attempt_views(self.attempts@).take(self.attempts@.len() as int) =~= attempt_views(
            self.attempts@,
        ));
        string_of(out.as_slice())
    }
}

/// One attempt as a line of the error text.
pub open spec fn attempt_text(attempt: (u16, Seq<char>)) -> Seq<char> {
    "\nfailed to listen on port "@ + decimal(attempt.0 as nat) + ": "@ + attempt.1
}

/// The text of the failure to listen on any port.
pub open spec fn bind_error_text(attempts: Seq<(u16, Seq<char>)>) -> Seq<char>
    decreases attempts.len(),
{
    if attempts.len() == 0 {
        "no port found to listen on"@
    } else {
        bind_error_text(attempts.drop_last()) + attempt_text(attempts.last())
    }
}

/// What the standard base64 alphabet, with padding, decodes `text` to;
/// `None` where `text` is no such encoding.
pub uninterp spec fn base64_decoded(text: Seq<char>) -> Option<Seq<u8>>;

/// What the standard base64 alphabet, with padding, encodes `data` as.
pub uninterp spec fn base64_encoded(data: Seq<u8>) -> Seq<char>;

/// The error that the base64 decoder reports.
#[verifier::external_type_specification]
#[verifier::external_body]
pub struct ExDecodeError(base64::DecodeError);

/// Decodes with `base64::engine::general_purpose::STANDARD`. The contract
/// names what the decoder returns and says that it fails exactly where there
/// is nothing to return.
#[verifier::external_body]
fn decode_standard(text: &str) -> (r: Result<Vec<u8>, base64::DecodeError>)
    ensures
        match r {
            Ok(data) => base64_decoded(text@) == Some(data@),
            Err(_) => base64_decoded(text@) is None,
        },
{
    base64::engine::general_purpose::STANDARD.decode(text)
}

/// Encodes with `base64::engine::general_purpose::STANDARD`, which panics
/// where the length of the encoding does not fit in `usize`; the contract
/// names what the encoder returns.
#[verifier::external_body]
fn encode_standard(data: &[u8]) -> (r: String)
    requires
        data@.len() / 3 * 4 + 4 <= usize::MAX,
    ensures
        r@ == base64_encoded(data@),
{
    base64::engine::general_purpose::STANDARD.encode(data)
}

/// The decoder's own words for an error: its `Display` text. Nothing is
/// claimed of it.
#[verifier::external_body]
fn describe_decode_error(error: &base64::DecodeError) -> (r: String) {
    error.to_string()
}

/// Decodes the base64 text of a request field. Fails, with the decoder's
/// description of the fault, exactly where the text is not base64.
pub fn deserialize_base64(text: &str) -> (r: Result<Vec<u8>, String>)
    ensures
        match r {
            Ok(data) => base64_decoded(text@) == Some(data@),
            Err(_) => base64_decoded(text@) is None,
        },
{
    match decode_standard(text) {
        Ok(data) => Ok(data),
        Err(error) => Err(describe_decode_error(&error)),
    }
}

/// Encodes the bytes of a response field as base64 text. `None` exactly
/// where the length of the text, with room for padding, may not fit in
/// `usize`.
pub fn serialize_base64(data: &[u8]) -> (r: Option<String>)
    ensures
        match r {
            Some(text) => data@.len() / 3 * 4 + 4 <= usize::MAX && text@ == base64_encoded(data@),
            None => data@.len() / 3 * 4 + 4 > usize::MAX,
        },
{
    if data.len() / 3 > (usize::MAX - 4) / 4 {
        None
    } else {
        Some(encode_standard(data))
    }
}

impl Request {
    /// The guard request whose expected bytes arrive as base64 text.
    pub fn guard(address: usize, expected_data: &str, domain: String) -> (r: Result<Request, String>)
        ensures
            match r {
                Ok(request) => base64_decoded(expected_data@) matches Some(data) && request@ == (
                RequestView::Guard { address, expected_data: data, domain: domain@ }),
                Err(_) => base64_decoded(expected_data@) is None,
            },
    {
        match deserialize_base64(expected_data) {
            Ok(data) => Ok(Request::Guard { address, expected_data: data, domain }),
            Err(error) => Err(error),
        }
    }

    /// The write request whose bytes arrive as base64 text.
    pub fn write(address: usize, value: &str) -> (r: Result<Request, String>)
        ensures
            match r {
                Ok(request) => base64_decoded(value@) matches Some(data) && request@ == (
                RequestView::Write { address, value: data }),
                Err(_) => base64_decoded(value@) is None,
            },
    {
        match deserialize_base64(value) {
            Ok(data) => Ok(Request::Write { address, value: data }),
            Err(error) => Err(error),
        }
    }
}

} // verus!
