//! The method registry, the dispatcher and the life of the server.

use vstd::prelude::*;
use crate::config::Config;
use crate::json::{is_line, json_parse, line_of, lines_are_lines};
use crate::text::utf8_text;
use crate::types::error::{plain_error, Error, ErrorKind};
use crate::types::func_types::FuncTypes;
use crate::types::params::Params;
use crate::types::request::{decoded_frame, Request, RequestView};
use crate::types::response::{encodes_response, response_line, Response, ResponseView};

verus! {

/// Where the server is in its life. It only ever moves forward.
#[derive(Debug, Clone, Copy, PartialEq, Eq, Structural)]
pub enum ServerState {
    /// Built, not yet bound.
    Starting,
    /// Accepting connections and answering requests.
    Listening,
    /// Told to shut down: no connection is accepted any more.
    ShuttingDown,
    /// The accept loop has ended and the connections have drained.
    Stopped,
}

/// How far a state is along the server's life.
pub open spec fn rank(state: ServerState) -> int {
    match state {
        ServerState::Starting => 0,
        ServerState::Listening => 1,
        ServerState::ShuttingDown => 2,
        ServerState::Stopped => 3,
    }
}

/// Whether a server in state `before` can be in state `after` one step
/// later: it stays where it is or takes the next state of its life.
pub open spec fn follows(before: ServerState, after: ServerState) -> bool {
    rank(before) <= rank(after) <= rank(before) + 1
}

/// The name of the method that shuts the server down.
pub open spec fn shutdown_method() -> Seq<char> {
    "shutdown"@
}

/// The line that is sent where a response has no JSON text of its own.
pub const FALLBACK_LINE: &'static str =
    "{\"result\":null,\"error\":{\"kind\":\"InvalidRequest\",\"message\":\"Invalid Request!\",\"data\":null}}\n";

/// The text of [`FALLBACK_LINE`].
pub open spec fn fallback_line() -> Seq<char> {
    FALLBACK_LINE@
}

/// The fallback line is one line, like every other answer.
pub proof fn fallback_is_a_line()
    ensures
        is_line(fallback_line()),
{
    reveal_strlit(
        "{\"result\":null,\"error\":{\"kind\":\"InvalidRequest\",\"message\":\"Invalid Request!\",\"data\":null}}\n",
    );
    let line = fallback_line();
    assert(line.len() == 91);
    assert forall|i: int| 0 <= i < 90 implies line.drop_last()[i] != '\n' by {
        assert(line.drop_last()[i] == line[i]);
    }
}

/// Whether `line` is the line that answers with `resp`: the line that
/// carries the response, or the fallback line where the response has none.
pub open spec fn answer_line(resp: ResponseView, line: Seq<char>) -> bool {
    ||| response_line(resp, line)
    ||| {
        &&& line == fallback_line()
        &&& exists|v: serde_json::Value| encodes_response(v, resp) && #[trigger] line_of(v) is None
    }
}

/// One registered method: its name and its handler.
struct Method<M, P> {
    name: String,
    func: FuncTypes<M, P>,
}

/// Whether no name occurs twice among the methods.
spec fn distinct_names<M, P>(methods: Seq<Method<M, P>>) -> bool {
    forall|i: int, j: int|
        0 <= i < methods.len() && 0 <= j < methods.len() && i != j ==> methods[i].name@
            != methods[j].name@
}

/// Whether `i` is a place among the methods that holds `name`.
spec fn holds_name<M, P>(methods: Seq<Method<M, P>>, name: Seq<char>, i: int) -> bool {
    0 <= i < methods.len() && methods[i].name@ == name
}

/// The registry that a list of methods stands for: each name with its handler.
spec fn registry_of<M, P>(methods: Seq<Method<M, P>>) -> Map<Seq<char>, FuncTypes<M, P>> {
    Map::new(
        |name: Seq<char>| exists|i: int| holds_name(methods, name, i),
        |name: Seq<char>| methods[choose|i: int| holds_name(methods, name, i)].func,
    )
}

/// The parameters that a request hands to its handler: its own, or none
/// where it has none.
pub open spec fn given_params(req: Request) -> Params {
    match req.params {
        Some(p) => p,
        None => Params::Absent,
    }
}

/// Whether `resp` is an answer of the registry to `req`: the error that says
/// that the method is not found where no handler has the request's name, and
/// otherwise a response of the handler with that name to the request's
/// parameters.
pub open spec fn dispatched<M: FnMut(Params) -> Response, P: Fn(Params) -> Response>(
    registry: Map<Seq<char>, FuncTypes<M, P>>,
    req: Request,
    resp: Response,
) -> bool {
    if registry.contains_key(req.method@) {
        registry[req.method@].answers(given_params(req), resp)
    } else {
        resp@ == ResponseView::Failure(plain_error(ErrorKind::MethodNotFound))
    }
}

/// The server: its address, its registry of methods and its state.
pub struct Server<M, P> {
    config: Config,
    methods: Vec<Method<M, P>>,
    state: ServerState,
}

impl<M: FnMut(Params) -> Response, P: Fn(Params) -> Response> Server<M, P> {
    /// The registry: which names are bound, and to which handler.
    pub closed spec fn registry(&self) -> Map<Seq<char>, FuncTypes<M, P>> {
        registry_of(self.methods@)
    }

    /// The state of the server.
    pub closed spec fn state(&self) -> ServerState {
        self.state
    }

    /// The address of the server.
    pub closed spec fn config(&self) -> Config {
        self.config
    }

    /// The invariant of the server: no name is bound twice, and every
    /// handler can be called with every parameters.
    pub closed spec fn wf(&self) -> bool {
        &&& distinct_names(self.methods@)
        &&& forall|i: int| 0 <= i < self.methods@.len() ==> (#[trigger] self.methods@[i]).func.total()
    }

    /// Whether `resp` answers `req` and `post` is the server after it, where
    /// `self` is the server before. Only a listening server calls handlers;
    /// the shutdown method is never looked up, it moves the server on to
    /// shutting down; in every other state the answer is that the server is
    /// shut down. The registry stays as it is.
    pub open spec fn answered(self, req: Request, post: Self, resp: Response) -> bool {
        &&& post.registry() == self.registry()
        &&& post.config() == self.config()
        &&& if self.state() != ServerState::Listening {
            &&& post.state() == self.state()
            &&& resp@ == ResponseView::Failure(plain_error(ErrorKind::ServerShutDown))
        } else if req.method@ == shutdown_method() {
            &&& post.state() == ServerState::ShuttingDown
            &&& resp@ == ResponseView::Failure(plain_error(ErrorKind::ServerShutDown))
        } else {
            &&& post.state() == ServerState::Listening
            &&& dispatched(self.registry(), req, resp)
        }
    }

    /// Whether `resp` is the response to `frame` and `post` the server after
    /// it. A frame that does not decode is answered with the error that says
    /// why and changes nothing; one that decodes is answered as its request.
    pub open spec fn replied(self, frame: Seq<u8>, post: Self, resp: Response) -> bool {
        match decoded_frame(frame) {
            Ok(rv) => exists|req: Request| req@ == rv && #[trigger] self.answered(req, post, resp),
            Err(kind) => {
                &&& post.registry() == self.registry()
                &&& post.config() == self.config()
                &&& post.state() == self.state()
                &&& resp@ == ResponseView::Failure(plain_error(kind))
            },
        }
    }

    /// Whether `line` is the line written back for `frame` and `post` the
    /// server after it: the line answers with a response to the frame.
    pub open spec fn handled(self, frame: Seq<u8>, post: Self, line: Seq<char>) -> bool {
        exists|resp: Response| #[trigger] self.replied(frame, post, resp) && answer_line(resp@, line)
    }

    /// A server for the given address, with no method registered.
    pub fn new(config: Config) -> (s: Self)
        ensures
            s.wf(),
            s.state() == ServerState::Starting,
            s.config() == config,
            s.registry() == Map::<Seq<char>, FuncTypes<M, P>>::empty(),
    {
        let s = Self { config, methods: Vec::new(), state: ServerState::Starting };
        assert(s.registry() =~= Map::<Seq<char>, FuncTypes<M, P>>::empty());
        s
    }

    /// The address that the server is to be bound to.
    pub fn get_url(&self) -> (url: String)
        ensures
            url@ == crate::config::url_of(self.config().ip(), self.config().port()),
    {
        self.config.get_url()
    }

    /// The current state.
    pub fn current_state(&self) -> (state: ServerState)
        ensures
            state == self.state(),
    {
        self.state
    }

    /// Whether the server accepts connections and answers requests.
    pub fn is_listening(&self) -> (b: bool)
        ensures
            b == (self.state() == ServerState::Listening),
    {
        match self.state {
            ServerState::Listening => true,
            _ => false,
        }
    }

    /// The place of `name` among the methods, if it is bound.
    fn position(&self, name: &String) -> (r: Option<usize>)
        ensures
            match r {
                Some(i) => holds_name(self.methods@, name@, i as int),
                None => forall|j: int| !holds_name(self.methods@, name@, j),
            },
    {
        let mut i: usize = 0;
        while i < self.methods.len()
            invariant
                i <= self.methods@.len(),
                forall|j: int| 0 <= j < i ==> !holds_name(self.methods@, name@, j),
            decreases self.methods@.len() - i,
        {
            if self.methods[i].name == *name {
                return Some(i);
            }
            i += 1;
        }
        None
    }

    /// Binds `name` to `func`. A handler that was bound to the name before
    /// is replaced; every other binding stays.
    pub fn insert(&mut self, name: String, func: FuncTypes<M, P>)
        requires
            old(self).wf(),
            func.total(),
        ensures
            final(self).wf(),
            final(self).registry() == old(self).registry().insert(name@, func),
            final(self).state() == old(self).state(),
            final(self).config() == old(self).config(),
    {
        let ghost before = self.methods@;
        match self.position(&name) {
            Some(i) => {
                let ghost name_view = name@;
                self.methods.set(i, Method { name, func });
                proof {
                    let after = self.methods@;
                    assert forall|n: Seq<char>, j: int| holds_name(after, n, j) <==> holds_name(
                        before,
                        n,
                        j,
                    ) by {}
                    assert(distinct_names(after)) by {
                        assert forall|a: int, b: int|
                            0 <= a < after.len() && 0 <= b < after.len() && a != b implies after[a].name@
                            != after[b].name@ by {
                            assert(holds_name(before, after[a].name@, a));
                            assert(holds_name(before, after[b].name@, b));
                        }
                    }
                    assert forall|j: int| 0 <= j < after.len() implies (#[trigger] after[j]).func.total() by {
                        if j != i {
                            assert(before[j].func.total());
                        }
                    }
                    assert(registry_of(after) =~= registry_of(before).insert(name_view, func)) by {
                        assert forall|n: Seq<char>| #[trigger]
                            registry_of(after).contains_key(n) implies registry_of(after)[n]
                            == registry_of(before).insert(name_view, func)[n] by {
                            let k = choose|k: int| holds_name(after, n, k);
                            let k0 = choose|k: int| holds_name(before, n, k);
                            assert(holds_name(before, n, k));
                            assert(holds_name(before, n, k0));
                            assert(k == k0);
                        }
                        assert(holds_name(after, name_view, i as int));
                    }
                }
            },
            None => {
                let ghost name_view = name@;
                self.methods.push(Method { name, func });
                proof {
                    let after = self.methods@;
                    let last = before.len() as int;
                    assert(holds_name(after, name_view, last));
                    assert(distinct_names(after)) by {
                        assert forall|a: int, b: int|
                            0 <= a < after.len() && 0 <= b < after.len() && a != b implies after[a].name@
                            != after[b].name@ by {
                            if a != last {
                                assert(holds_name(before, after[a].name@, a));
                            }
                            if b != last {
                                assert(holds_name(before, after[b].name@, b));
                            }
                        }
                    }
                    assert forall|j: int| 0 <= j < after.len() implies (#[trigger] after[j]).func.total() by {
                        if j != last {
                            assert(before[j].func.total());
                        }
                    }
                    assert forall|n: Seq<char>, j: int| holds_name(before, n, j) implies holds_name(
                        after,
                        n,
                        j,
                    ) by {}
                    assert(registry_of(after) =~= registry_of(before).insert(name_view, func)) by {
                        assert forall|n: Seq<char>| #[trigger]
                            registry_of(after).contains_key(n) implies registry_of(
                            before,
                        ).insert(name_view, func).contains_key(n) && registry_of(after)[n]
                            == registry_of(before).insert(name_view, func)[n] by {
                            let k = choose|k: int| holds_name(after, n, k);
                            if k == last {
                            } else {
                                assert(holds_name(before, n, k));
                                let k0 = choose|k: int| holds_name(before, n, k);
                                assert(holds_name(after, n, k0));
                                assert(k == k0);
                            }
                        }
                        assert forall|n: Seq<char>| #[trigger]
                            registry_of(before).insert(name_view, func).contains_key(
                                n,
                            ) implies registry_of(after).contains_key(n) by {
                            if n != name_view {
                                let k0 = choose|k: int| holds_name(before, n, k);
                                assert(holds_name(after, n, k0));
                            }
                        }
                    }
                }
            },
        }
    }

    /// Looks the request's method up and calls its handler with the
    /// request's parameters. The call is made in place: dispatch returns when
    /// the handler has returned.
    pub fn dispatch(&mut self, request: Request) -> (resp: Response)
        requires
            old(self).wf(),
        ensures
            final(self).wf(),
            final(self).registry() == old(self).registry(),
            final(self).state() == old(self).state(),
            final(self).config() == old(self).config(),
            dispatched(old(self).registry(), request, resp),
    {
        let ghost before = self.methods@;
        let Request { method, params } = request;
        match self.position(&method) {
            Some(i) => {
                let args = match params {
                    Some(p) => p,
                    None => Params::Absent,
                };
                proof {
                    let k = choose|k: int| holds_name(before, method@, k);
                    assert(holds_name(before, method@, i as int));
                    assert(k == i);
                }
                let resp = Self::handle_method(&mut self.methods[i].func, args);
                assert(self.methods@ =~= before);
                resp
            },
            None => Response::failure(Error::method_not_found()),
        }
    }

    /// Calls a handler: a mutating one through the exclusive reference, a
    /// pure one through a shared one.
    pub fn handle_method(func: &mut FuncTypes<M, P>, params: Params) -> (resp: Response)
        requires
            old(func).total(),
        ensures
            old(func).answers(params, resp),
            *final(func) == *old(func),
    {
        func.call(params)
    }

    /// Answers one request. See [`Server::answered`].
    pub fn handle_request(&mut self, req: Request) -> (resp: Response)
        requires
            old(self).wf(),
        ensures
            final(self).wf(),
            old(self).answered(req, *final(self), resp),
    {
        if !self.is_listening() {
            return Response::failure(Error::of_kind(ErrorKind::ServerShutDown));
        }
        let reserved = "shutdown".to_owned();
        if req.method == reserved {
            self.state = ServerState::ShuttingDown;
            return Response::failure(Error::of_kind(ErrorKind::ServerShutDown));
        }
        self.dispatch(req)
    }

    /// Answers one frame with a response. See [`Server::replied`].
    pub fn reply(&mut self, frame: &[u8]) -> (resp: Response)
        requires
            old(self).wf(),
        ensures
            final(self).wf(),
            old(self).replied(frame@, *final(self), resp),
    {
        match Request::from_frame(frame) {
            Ok(req) => self.handle_request(req),
            Err(e) => Response::failure(e),
        }
    }

    /// Answers one frame with the line to write back: one line for every
    /// frame, whatever the frame holds.
    pub fn handle(&mut self, frame: &[u8]) -> (line: String)
        requires
            old(self).wf(),
        ensures
            final(self).wf(),
            old(self).handled(frame@, *final(self), line@),
            is_line(line@),
    {
        let resp = self.reply(frame);
        let ghost answer = resp@;
        match resp.to_line() {
            Some(line) => {
                proof {
                    let v = choose|v: serde_json::Value|
                        encodes_response(v, answer) && #[trigger] line_of(v) == Some(line@);
                    lines_are_lines(v);
                }
                line
            },
            None => {
                proof {
                    fallback_is_a_line();
                }
                FALLBACK_LINE.to_owned()
            },
        }
    }

    /// The server has been bound: it starts to listen. A server that is past
    /// its start stays as it is.
    pub fn listen(&mut self)
        requires
            old(self).wf(),
        ensures
            final(self).wf(),
            final(self).registry() == old(self).registry(),
            final(self).config() == old(self).config(),
            final(self).state() == if old(self).state() == ServerState::Starting {
                ServerState::Listening
            } else {
                old(self).state()
            },
    {
        match self.state {
            ServerState::Starting => {
                self.state = ServerState::Listening;
            },
            _ => {},
        }
    }

    /// The accept loop has ended and the connections have drained: a server
    /// that was shutting down is stopped. In every other state it stays as
    /// it is.
    pub fn stop(&mut self)
        requires
            old(self).wf(),
        ensures
            final(self).wf(),
            final(self).registry() == old(self).registry(),
            final(self).config() == old(self).config(),
            final(self).state() == if old(self).state() == ServerState::ShuttingDown {
                ServerState::Stopped
            } else {
                old(self).state()
            },
    {
        match self.state {
            ServerState::ShuttingDown => {
                self.state = ServerState::Stopped;
            },
            _ => {},
        }
    }

    /// The request that shuts a server down.
    pub fn shutdown() -> (req: Request)
        ensures
            req@ == (RequestView { method: shutdown_method(), params: None }),
    {
        Request::new("shutdown".to_owned(), None)
    }
}

/// Binding a name again replaces its handler: whatever was bound to the name
/// before, a request for it is answered by the handler that was bound last,
/// and by no other.
pub proof fn last_insert_wins<M: FnMut(Params) -> Response, P: Fn(Params) -> Response>(
    registry: Map<Seq<char>, FuncTypes<M, P>>,
    name: Seq<char>,
    first: FuncTypes<M, P>,
    second: FuncTypes<M, P>,
    req: Request,
    resp: Response,
)
    requires
        req.method@ == name,
    ensures
        registry.insert(name, first).insert(name, second) == registry.insert(name, second),
        dispatched(registry.insert(name, first).insert(name, second), req, resp)
            <==> second.answers(given_params(req), resp),
{
    assert(registry.insert(name, first).insert(name, second) =~= registry.insert(name, second));
}

/// Binding a name takes no name away: what was bound stays bound, to the
/// handler it had unless the name is the one that was bound anew.
pub proof fn registry_never_shrinks<M: FnMut(Params) -> Response, P: Fn(Params) -> Response>(
    registry: Map<Seq<char>, FuncTypes<M, P>>,
    name: Seq<char>,
    func: FuncTypes<M, P>,
    other: Seq<char>,
)
    requires
        registry.contains_key(other),
    ensures
        registry.insert(name, func).contains_key(other),
        other != name ==> registry.insert(name, func)[other] == registry[other],
{
}

/// A request for a name that is not bound is answered with the error that
/// says so, and with nothing else.
pub proof fn unbound_is_not_found<M: FnMut(Params) -> Response, P: Fn(Params) -> Response>(
    registry: Map<Seq<char>, FuncTypes<M, P>>,
    req: Request,
    resp: Response,
)
    requires
        !registry.contains_key(req.method@),
    ensures
        dispatched(registry, req, resp) <==> resp@ == ResponseView::Failure(
            plain_error(ErrorKind::MethodNotFound),
        ),
{
}

/// Answering a request is a step in the server's life: the shutdown method
/// ends listening, every other request leaves the state as it is.
pub proof fn shutdown_ends_listening<M: FnMut(Params) -> Response, P: Fn(Params) -> Response>(
    pre: Server<M, P>,
    req: Request,
    post: Server<M, P>,
    resp: Response,
)
    requires
        pre.answered(req, post, resp),
    ensures
        follows(pre.state(), post.state()),
        pre.state() == ServerState::Listening && req.method@ == shutdown_method() ==> post.state()
            == ServerState::ShuttingDown,
        !(pre.state() == ServerState::Listening && req.method@ == shutdown_method())
            ==> post.state() == pre.state(),
{
}

/// Answering a frame is a step in the server's life, too.
pub proof fn frames_are_steps<M: FnMut(Params) -> Response, P: Fn(Params) -> Response>(
    pre: Server<M, P>,
    frame: Seq<u8>,
    post: Server<M, P>,
    line: Seq<char>,
)
    requires
        pre.handled(frame, post, line),
    ensures
        follows(pre.state(), post.state()),
        post.registry() == pre.registry(),
        post.config() == pre.config(),
{
    let resp = choose|resp: Response| #[trigger]
        pre.replied(frame, post, resp) && answer_line(resp@, line);
    match decoded_frame(frame) {
        Ok(rv) => {
            let req = choose|req: Request| req@ == rv && #[trigger] pre.answered(req, post, resp);
            shutdown_ends_listening(pre, req, post, resp);
        },
        Err(_) => {},
    }
}

/// There is no way back: however many steps a server takes, it never gets
/// to an earlier state, and once it has stopped listening it never listens
/// again.
pub proof fn shutdown_is_final(states: Seq<ServerState>)
    requires
        states.len() > 0,
        forall|i: int| 0 <= i < states.len() - 1 ==> follows(#[trigger] states[i], states[i + 1]),
    ensures
        rank(states.first()) <= rank(states.last()),
        rank(states.first()) >= 2 ==> states.last() != ServerState::Listening,
    decreases states.len(),
{
    if states.len() > 1 {
        let rest = states.drop_first();
        assert forall|i: int| 0 <= i < rest.len() - 1 implies follows(
            #[trigger] rest[i],
            rest[i + 1],
        ) by {
            assert(follows(states[i + 1], states[i + 2]));
        }
        shutdown_is_final(rest);
        assert(follows(states[0], states[1]));
        assert(rest.first() == states[1]);
        assert(rest.last() == states.last());
    }
}

/// A frame that is not UTF-8, or whose text is not JSON, is answered with a
/// parse error and leaves the server as it was: the next frame is answered
/// as if the bad one had not come.
pub proof fn malformed_changes_nothing<M: FnMut(Params) -> Response, P: Fn(Params) -> Response>(
    pre: Server<M, P>,
    frame: Seq<u8>,
    post: Server<M, P>,
    resp: Response,
)
    requires
        pre.replied(frame, post, resp),
        match utf8_text(frame) {
            Some(text) => json_parse(text) is None,
            None => true,
        },
    ensures
        resp@ == ResponseView::Failure(plain_error(ErrorKind::ParseError)),
        post.registry() == pre.registry(),
        post.state() == pre.state(),
        post.config() == pre.config(),
{
}

} // verus!
