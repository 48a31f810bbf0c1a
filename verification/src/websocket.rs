//! The request server's decisions: what each incoming message leads to,
//! which poller a task names, and the response of each outcome.

use vstd::prelude::*;

use crate::json::{json_get, json_str_field, JsonValue};
use crate::request::concat_str;
use crate::text::{opt_view, or_empty, str_eq};

verus! {

//-----------------------Responses---------------------------------------------

/// How a request ended.
#[derive(Debug, Clone, Copy, PartialEq, Eq, Structural)]
pub enum Outcome {
    Failure,
    NotAllowed,
    Timeout,
    Canceled,
    InternalError,
    NotFound,
    RateLimited,
}

/// The status code answered for each outcome.
pub open spec fn outcome_status(o: Outcome) -> u32 {
    match o {
        Outcome::Failure => 400,
        Outcome::Canceled => 499,
        Outcome::Timeout => 408,
        Outcome::NotAllowed => 500,
        Outcome::NotFound => 404,
        Outcome::RateLimited => 429,
        Outcome::InternalError => 503,
    }
}

/// The status code of a served request.
pub open spec fn success_status() -> u32 {
    200
}

/// The answer to a request: a status, the result of a served request, and the
/// reason of a failed one.
#[derive(Debug)]
pub struct ServerResponse {
    pub status: u32,
    pub message: Option<JsonValue>,
    pub reason: Option<String>,
}

impl ServerResponse {
    pub fn new(status: u32, message: Option<JsonValue>, reason: Option<String>) -> (r:
        ServerResponse)
        ensures
            r.status == status,
            r.message == message,
            r.reason == reason,
    {
        ServerResponse { status, message, reason }
    }
}

/// The answer to a served request: status 200 with its result.
pub fn return_success(message: JsonValue) -> (r: ServerResponse)
    ensures
        r.status == success_status(),
        r.message == Some(message),
        r.reason is None,
{
    ServerResponse::new(200, Some(message), None)
}

/// The answer to a failed request: the outcome's status with the reason.
pub fn return_error(outcome: Outcome, reason: String) -> (r: ServerResponse)
    ensures
        r.status == outcome_status(outcome),
        r.message is None,
        opt_view(r.reason) == Some(reason@),
{
    let status: u32 = match outcome {
        Outcome::Failure => 400,
        Outcome::Canceled => 499,
        Outcome::Timeout => 408,
        Outcome::NotAllowed => 500,
        Outcome::NotFound => 404,
        Outcome::RateLimited => 429,
        Outcome::InternalError => 503,
    };
    ServerResponse::new(status, None, Some(reason))
}

//-----------------------Targets-----------------------------------------------

/// A poller that a task can run.
#[derive(Debug, Clone, Copy, PartialEq, Eq, Structural)]
pub enum PollTarget {
    Stock,
    Crypto,
    Forex,
    Index,
    TechnicalIndicators,
    EconomicData,
    MarketData,
    Search,
}

/// The names under which the server registers its pollers.
pub open spec fn registered_targets() -> Map<Seq<char>, PollTarget> {
    map![
        "stock_polling"@ => PollTarget::Stock,
        "crypto_polling"@ => PollTarget::Crypto,
        "forex_polling"@ => PollTarget::Forex,
        "index_polling"@ => PollTarget::Index,
        "technical_indicators_polling"@ => PollTarget::TechnicalIndicators,
        "economic_data_polling"@ => PollTarget::EconomicData,
        "market_data_polling"@ => PollTarget::MarketData,
        "search_unpinned"@ => PollTarget::Search,
    ]
}

/// The server registers each poller under the name of its own kind: the
/// crypto poller under `crypto_polling`, the index poller under
/// `index_polling`, and so on; the eight names are all it registers, and
/// distinct names lead to distinct pollers.
pub proof fn registered_names_match_their_pollers()
    ensures
        registered_targets().dom().contains("stock_polling"@) && registered_targets()["stock_polling"@] == PollTarget::Stock,
        registered_targets().dom().contains("crypto_polling"@) && registered_targets()["crypto_polling"@] == PollTarget::Crypto,
        registered_targets().dom().contains("forex_polling"@) && registered_targets()["forex_polling"@] == PollTarget::Forex,
        registered_targets().dom().contains("index_polling"@) && registered_targets()["index_polling"@] == PollTarget::Index,
        registered_targets().dom().contains("technical_indicators_polling"@) && registered_targets()["technical_indicators_polling"@] == PollTarget::TechnicalIndicators,
        registered_targets().dom().contains("economic_data_polling"@) && registered_targets()["economic_data_polling"@] == PollTarget::EconomicData,
        registered_targets().dom().contains("market_data_polling"@) && registered_targets()["market_data_polling"@] == PollTarget::MarketData,
        registered_targets().dom().contains("search_unpinned"@) && registered_targets()["search_unpinned"@] == PollTarget::Search,
        registered_targets().dom().len() == 8,
        forall|n1: Seq<char>, n2: Seq<char>|
            registered_targets().dom().contains(n1) && registered_targets().dom().contains(n2)
                && #[trigger] registered_targets()[n1] == #[trigger] registered_targets()[n2]
                ==> n1 == n2,
{
    reveal_strlit("stock_polling");
    assert("stock_polling"@.len() == 13 && "stock_polling"@[0] == 's');
    reveal_strlit("crypto_polling");
    assert("crypto_polling"@.len() == 14 && "crypto_polling"@[0] == 'c');
    reveal_strlit("forex_polling");
    assert("forex_polling"@.len() == 13 && "forex_polling"@[0] == 'f');
    reveal_strlit("index_polling");
    assert("index_polling"@.len() == 13 && "index_polling"@[0] == 'i');
    reveal_strlit("technical_indicators_polling");
    assert("technical_indicators_polling"@.len() == 28 && "technical_indicators_polling"@[0] == 't');
    reveal_strlit("economic_data_polling");
    assert("economic_data_polling"@.len() == 21 && "economic_data_polling"@[0] == 'e');
    reveal_strlit("market_data_polling");
    assert("market_data_polling"@.len() == 19 && "market_data_polling"@[0] == 'm');
    reveal_strlit("search_unpinned");
    assert("search_unpinned"@.len() == 15 && "search_unpinned"@[0] == 's');
    assert(registered_targets().dom() =~= set![
        "stock_polling"@,
        "crypto_polling"@,
        "forex_polling"@,
        "index_polling"@,
        "technical_indicators_polling"@,
        "economic_data_polling"@,
        "market_data_polling"@,
        "search_unpinned"@,
    ]);
}

/// The map that a list of registrations stands for; a later registration of
/// a name replaces an earlier one.
pub open spec fn registry_map(r: Seq<(String, PollTarget)>) -> Map<Seq<char>, PollTarget>
    decreases r.len(),
{
    if r.len() == 0 {
        Map::empty()
    } else {
        registry_map(r.drop_last()).insert(r.last().0@, r.last().1)
    }
}

pub open spec fn names_unique(r: Seq<(String, PollTarget)>) -> bool {
    forall|i: int, j: int| 0 <= i < r.len() && 0 <= j < r.len() && i != j ==> r[i].0@ != r[j].0@
}

proof fn lemma_registry_update(r: Seq<(String, PollTarget)>, i: int, k: String, t: PollTarget)
    requires
        names_unique(r),
        0 <= i < r.len(),
        r[i].0@ == k@,
    ensures
        registry_map(r.update(i, (k, t))) == registry_map(r).insert(k@, t),
    decreases r.len(),
{
    let r2 = r.update(i, (k, t));
    if i == r.len() - 1 {
        assert(r2.drop_last() =~= r.drop_last());
        assert(registry_map(r2) =~= registry_map(r).insert(k@, t));
    } else {
        assert(r2.drop_last() =~= r.drop_last().update(i, (k, t)));
        assert(names_unique(r.drop_last()));
        lemma_registry_update(r.drop_last(), i, k, t);
        assert(r.last().0@ != k@);
        assert(registry_map(r2) =~= registry_map(r).insert(k@, t));
    }
}

proof fn lemma_registry_lookup(r: Seq<(String, PollTarget)>, i: int)
    requires
        names_unique(r),
        0 <= i < r.len(),
    ensures
        registry_map(r).dom().contains(r[i].0@),
        registry_map(r)[r[i].0@] == r[i].1,
    decreases r.len(),
{
    if i < r.len() - 1 {
        assert(names_unique(r.drop_last()));
        lemma_registry_lookup(r.drop_last(), i);
        assert(r.last().0@ != r[i].0@);
    }
}

proof fn lemma_registry_absent(r: Seq<(String, PollTarget)>, k: Seq<char>)
    requires
        forall|j: int| 0 <= j < r.len() ==> r[j].0@ != k,
    ensures
        !registry_map(r).dom().contains(k),
    decreases r.len(),
{
    if r.len() > 0 {
        lemma_registry_absent(r.drop_last(), k);
    }
}

/// The server's table of pollers by name.
pub struct MakeResponse {
    registry: Vec<(String, PollTarget)>,
}

impl MakeResponse {
    #[verifier::type_invariant]
    spec fn inv(&self) -> bool {
        names_unique(self.registry@)
    }

    /// The pollers registered so far, by name.
    pub closed spec fn targets(&self) -> Map<Seq<char>, PollTarget> {
        registry_map(self.registry@)
    }

    /// An empty table.
    pub fn new() -> (r: MakeResponse)
        ensures
            r.targets() == Map::<Seq<char>, PollTarget>::empty(),
    {
        MakeResponse { registry: Vec::new() }
    }

    /// Registers a poller under a name, replacing an earlier registration of
    /// the name.
    pub fn register_function(&mut self, where_: String, target: PollTarget)
        ensures
            final(self).targets() == old(self).targets().insert(where_@, target),
    {
        proof {
            use_type_invariant(&*self);
        }
        let n = self.registry.len();
        let mut i: usize = 0;
        let ghost s0 = *self;
        while i < n
            invariant
                *self == s0,
                *old(self) == s0,
                names_unique(s0.registry@),
                n == self.registry@.len(),
                i <= n,
                forall|j: int| 0 <= j < i ==> self.registry@[j].0@ != where_@,
            decreases n - i,
        {
            if str_eq(self.registry[i].0.as_str(), where_.as_str()) {
                let ghost r = self.registry@;
                let mut registry: Vec<(String, PollTarget)> = Vec::new();
                std::mem::swap(&mut registry, &mut self.registry);
                let k = registry[i].0.clone();
                registry.set(i, (k, target));
                proof {
                    lemma_registry_update(r, i as int, k, target);
                    assert forall|a: int, b: int|
                        0 <= a < registry@.len() && 0 <= b < registry@.len() && a != b implies registry@[a].0@
                        != registry@[b].0@ by {
                        assert(r[a].0@ == registry@[a].0@);
                        assert(r[b].0@ == registry@[b].0@);
                    }
                }
                self.registry = registry;
                return ;
            }
            i = i + 1;
        }
        let ghost r = self.registry@;
        let mut registry: Vec<(String, PollTarget)> = Vec::new();
        std::mem::swap(&mut registry, &mut self.registry);
        registry.push((where_, target));
        proof {
            assert(registry@.drop_last() =~= r);
            assert forall|a: int, b: int|
                0 <= a < registry@.len() && 0 <= b < registry@.len() && a != b implies registry@[a].0@
                != registry@[b].0@ by {
                if a < r.len() && b < r.len() {
                    assert(r[a] == registry@[a] && r[b] == registry@[b]);
                } else if a < r.len() {
                    assert(r[a] == registry@[a]);
                } else {
                    assert(r[b] == registry@[b]);
                }
            }
        }
        self.registry = registry;
    }

    /// Registers every poller of the server under its name.
    pub fn build(&mut self)
        ensures
            final(self).targets() == old(self).targets().union_prefer_right(registered_targets()),
            final(self).targets().dom().contains("stock_polling"@) && final(self).targets()["stock_polling"@] == PollTarget::Stock,
            final(self).targets().dom().contains("crypto_polling"@) && final(self).targets()["crypto_polling"@] == PollTarget::Crypto,
            final(self).targets().dom().contains("forex_polling"@) && final(self).targets()["forex_polling"@] == PollTarget::Forex,
            final(self).targets().dom().contains("index_polling"@) && final(self).targets()["index_polling"@] == PollTarget::Index,
            final(self).targets().dom().contains("technical_indicators_polling"@) && final(self).targets()["technical_indicators_polling"@] == PollTarget::TechnicalIndicators,
            final(self).targets().dom().contains("economic_data_polling"@) && final(self).targets()["economic_data_polling"@] == PollTarget::EconomicData,
            final(self).targets().dom().contains("market_data_polling"@) && final(self).targets()["market_data_polling"@] == PollTarget::MarketData,
            final(self).targets().dom().contains("search_unpinned"@) && final(self).targets()["search_unpinned"@] == PollTarget::Search,
    {
        self.register_function("stock_polling".to_owned(), PollTarget::Stock);
        self.register_function("crypto_polling".to_owned(), PollTarget::Crypto);
        self.register_function("forex_polling".to_owned(), PollTarget::Forex);
        self.register_function("index_polling".to_owned(), PollTarget::Index);
        self.register_function(
            "technical_indicators_polling".to_owned(),
            PollTarget::TechnicalIndicators,
        );
        self.register_function("economic_data_polling".to_owned(), PollTarget::EconomicData);
        self.register_function("market_data_polling".to_owned(), PollTarget::MarketData);
        self.register_function("search_unpinned".to_owned(), PollTarget::Search);
        assert(self.targets() =~= old(self).targets().union_prefer_right(registered_targets()));
        proof {
            registered_names_match_their_pollers();
        }
    }

    /// The poller registered under a name.
    pub fn map_func(&self, where_: &str) -> (r: Option<PollTarget>)
        ensures
            match r {
                Some(t) => self.targets().dom().contains(where_@) && self.targets()[where_@] == t,
                None => !self.targets().dom().contains(where_@),
            },
    {
        proof {
            use_type_invariant(self);
        }
        let n = self.registry.len();
        let mut i: usize = 0;
        while i < n
            invariant
                n == self.registry@.len(),
                names_unique(self.registry@),
                i <= n,
                forall|j: int| 0 <= j < i ==> self.registry@[j].0@ != where_@,
            decreases n - i,
        {
            if str_eq(self.registry[i].0.as_str(), where_) {
                proof {
                    lemma_registry_lookup(self.registry@, i as int);
                }
                return Some(self.registry[i].1);
            }
            i = i + 1;
        }
        proof {
            lemma_registry_absent(self.registry@, where_@);
        }
        None
    }
}

//-----------------------Requests----------------------------------------------

/// The function a task asks for.
#[derive(Debug, Clone, Copy, PartialEq, Eq, Structural)]
pub enum TaskFunction {
    AggregatedPolling,
    Other,
}

/// The task part of a request: the function, its parameters and the name of
/// the poller to run.
#[derive(Debug)]
pub struct TaskArgs {
    pub function: TaskFunction,
    pub params: Option<JsonValue>,
    pub where_: String,
}

/// A parsed request: its target and, for tasks, the task arguments.
#[derive(Debug)]
pub struct CallRequest {
    pub target: String,
    pub for_task: Option<TaskArgs>,
}

/// The task part of a request document: `args.for_task`, if present.
pub open spec fn for_task_member(v: JsonValue) -> Option<JsonValue> {
    match json_get(v, "args"@) {
        Some(a) => json_get(a, "for_task"@),
        None => None,
    }
}

/// The function a task document names: aggregated polling for the text
/// `AggregatedPolling`, any other function otherwise.
pub open spec fn task_function_of(t: JsonValue) -> TaskFunction {
    if json_str_field(t, "function"@) == Some("AggregatedPolling"@) {
        TaskFunction::AggregatedPolling
    } else {
        TaskFunction::Other
    }
}

/// The parameters of a task document: its `params` member unless absent or
/// null.
pub open spec fn task_params_of(t: JsonValue) -> Option<JsonValue> {
    match json_get(t, "params"@) {
        Some(JsonValue::Null) => None,
        Some(p) => Some(p),
        None => None,
    }
}

/// The poller name of a task document: `look_for.where_`, or the empty text.
pub open spec fn task_where_of(t: JsonValue) -> Seq<char> {
    match json_get(t, "look_for"@) {
        Some(l) => or_empty(json_str_field(l, "where_"@)),
        None => Seq::empty(),
    }
}

/// The message of a request document without a string `target`.
pub open spec fn missing_target_text() -> Seq<char> {
    "Missing 'target' field"@
}

/// Reads a call request from its JSON document: the string `target`
/// (required), and the task under `args.for_task` with its `function`,
/// `params` and `look_for.where_`.
pub fn parse_call_request(v: JsonValue) -> (r: Result<CallRequest, String>)
    ensures
        match json_str_field(v, "target"@) {
            None => r matches Err(m) && m@ == missing_target_text(),
            Some(target) => r matches Ok(req) && req.target@ == target && match for_task_member(
                v,
            ) {
                None => req.for_task is None,
                Some(t) => req.for_task matches Some(ta) && ta.function == task_function_of(t)
                    && ta.params == task_params_of(t) && ta.where_@ == task_where_of(t),
            },
        },
{
    let target = match v.str_field("target") {
        Some(t) => t,
        None => return Err("Missing 'target' field".to_owned()),
    };
    let for_task = match v.take_member("args") {
        Some(a) => match a.take_member("for_task") {
            Some(t) => {
                let function = match t.str_field("function") {
                    Some(f) => if str_eq(f.as_str(), "AggregatedPolling") {
                        TaskFunction::AggregatedPolling
                    } else {
                        TaskFunction::Other
                    },
                    None => TaskFunction::Other,
                };
                let where_ = match t.get("look_for") {
                    Some(l) => match l.str_field("where_") {
                        Some(w) => w,
                        None => String::new(),
                    },
                    None => String::new(),
                };
                let params = match t.take_member("params") {
                    Some(JsonValue::Null) => None,
                    Some(p) => Some(p),
                    None => None,
                };
                Some(TaskArgs { function, params, where_ })
            },
            None => None,
        },
        None => None,
    };
    Ok(CallRequest { target, for_task })
}

/// What the server does with a request.
#[derive(Debug)]
pub enum Reply {
    /// Run the poller with the parameters and answer with its result.
    Run { target: PollTarget, params: JsonValue },
    /// Answer at once.
    Respond(ServerResponse),
}

/// `r` answers with `status`, no message, and the reason `reason`.
pub open spec fn responds_error(r: Reply, status: u32, reason: Seq<char>) -> bool {
    r matches Reply::Respond(resp) && resp.status == status && resp.message is None && opt_view(
        resp.reason,
    ) == Some(reason)
}

/// How a request is answered: a parse failure with its message; a task of
/// the aggregated-polling function with parameters runs the poller it names
/// (an unknown name and missing parameters are failures); anything else is
/// not allowed.
pub open spec fn reply_spec(
    targets: Map<Seq<char>, PollTarget>,
    parsed: Result<CallRequest, String>,
    r: Reply,
) -> bool {
    match parsed {
        Err(e) => responds_error(r, 400, e@),
        Ok(req) => match polling_task(req) {
            Some(t) => task_reply_spec(targets, t, r),
            None => responds_error(r, 500, "Invalid request"@),
        },
    }
}

/// The task arguments of a request to run an aggregated poll, if it is one.
pub open spec fn polling_task(req: CallRequest) -> Option<TaskArgs> {
    if req.target@ == "task"@ {
        match req.for_task {
            Some(t) => if t.function == TaskFunction::AggregatedPolling {
                Some(t)
            } else {
                None
            },
            None => None,
        }
    } else {
        None
    }
}

/// How a polling task is answered: with parameters it runs the poller it
/// names (an unknown name is a failure); without, it is a failure.
pub open spec fn task_reply_spec(targets: Map<Seq<char>, PollTarget>, t: TaskArgs, r: Reply) -> bool {
    match t.params {
        Some(p) => if targets.dom().contains(t.where_@) {
            r == (Reply::Run { target: targets[t.where_@], params: p })
        } else {
            responds_error(r, 400, "Invalid task function: "@ + t.where_@)
        },
        None => responds_error(r, 400, "Invalid task arguments"@),
    }
}

/// A task request that the unchecked variant serves without aborting.
pub open spec fn well_formed_task(targets: Map<Seq<char>, PollTarget>, req: CallRequest) -> bool {
    match polling_task(req) {
        Some(t) => t.params is Some && targets.dom().contains(t.where_@),
        None => false,
    }
}

impl MakeResponse {
    /// Decides the answer to a parsed request.
    pub fn make(&self, parsed: Result<CallRequest, String>) -> (r: Reply)
        ensures
            reply_spec(self.targets(), parsed, r),
    {
        match parsed {
            Err(err) => Reply::Respond(return_error(Outcome::Failure, err)),
            Ok(req) => {
                if str_eq(req.target.as_str(), "task") {
                    if let Some(task_args) = req.for_task {
                        if task_args.function == TaskFunction::AggregatedPolling {
                            return self.handle_task(task_args);
                        }
                    }
                }
                Reply::Respond(return_error(Outcome::NotAllowed, "Invalid request".to_owned()))
            },
        }
    }

    fn handle_task(&self, task_args: TaskArgs) -> (r: Reply)
        ensures
            task_reply_spec(self.targets(), task_args, r),
    {
        let where_ = task_args.where_;
        match task_args.params {
            Some(args) => match self.map_func(where_.as_str()) {
                Some(target) => Reply::Run { target, params: args },
                None => Reply::Respond(
                    return_error(
                        Outcome::Failure,
                        concat_str("Invalid task function: ", where_.as_str()),
                    ),
                ),
            },
            None => Reply::Respond(
                return_error(Outcome::Failure, "Invalid task arguments".to_owned()),
            ),
        }
    }

    /// The unchecked variant: a task request must be well-formed (a task of
    /// the aggregated-polling function, with parameters, naming a registered
    /// poller), as any other task request aborts it. Any other target is
    /// answered with status 200 and nothing else.
    pub fn unsafe_make(&self, req: CallRequest) -> (r: Reply)
        requires
            req.target@ == "task"@ ==> well_formed_task(self.targets(), req),
        ensures
            if req.target@ == "task"@ {
                task_reply_spec(self.targets(), polling_task(req)->0, r)
            } else {
                r matches Reply::Respond(resp) && resp.status == 200 && resp.message is None
                    && resp.reason is None
            },
    {
        if str_eq(req.target.as_str(), "task") {
            match req.for_task {
                Some(task_args) => match task_args.params {
                    Some(args) => match self.map_func(task_args.where_.as_str()) {
                        Some(target) => Reply::Run { target, params: args },
                        None => Reply::Respond(ServerResponse::new(200, None, None)),
                    },
                    None => Reply::Respond(ServerResponse::new(200, None, None)),
                },
                None => Reply::Respond(ServerResponse::new(200, None, None)),
            }
        } else {
            Reply::Respond(ServerResponse::new(200, None, None))
        }
    }
}

//-----------------------Connection--------------------------------------------

/// Whether a text is a JSON document, as `serde_json` parses it.
pub uninterp spec fn is_json_text(s: Seq<char>) -> bool;

/// Calls `serde_json::from_str::<serde_json::Value>` and reports whether it
/// parsed. The contract names the verdict, a function of the text alone; the
/// JSON grammar is not restated.
#[verifier::external_body]
fn parses_as_json(text: &str) -> (r: bool)
    ensures
        r == is_json_text(text@),
{
    serde_json::from_str::<serde_json::Value>(text).is_ok()
}

/// A message read from a client connection.
#[derive(Debug)]
pub enum IncomingMessage {
    Text(String),
    Close,
    Failed,
    Other,
}

/// What the connection does with a message.
#[derive(Debug)]
pub enum ConnectionStep {
    /// Decide the answer to this request text and send it.
    Answer(String),
    /// Send this text.
    Send(String),
    /// Close the connection.
    Stop,
    /// Ignore the message.
    Skip,
}

/// The step for each message: a JSON text is answered, another text gets
/// `Invalid JSON`, a close or a read failure ends the connection, any other
/// message is ignored.
pub open spec fn step_spec(m: IncomingMessage, r: ConnectionStep) -> bool {
    match m {
        IncomingMessage::Text(t) => if is_json_text(t@) {
            r matches ConnectionStep::Answer(a) && a@ == t@
        } else {
            r matches ConnectionStep::Send(s) && s@ == "Invalid JSON"@
        },
        IncomingMessage::Close => r is Stop,
        IncomingMessage::Failed => r is Stop,
        IncomingMessage::Other => r is Skip,
    }
}

pub fn on_message(m: IncomingMessage) -> (r: ConnectionStep)
    ensures
        step_spec(m, r),
{
    match m {
        IncomingMessage::Text(text) => if parses_as_json(text.as_str()) {
            ConnectionStep::Answer(text)
        } else {
            ConnectionStep::Send("Invalid JSON".to_owned())
        },
        IncomingMessage::Close => ConnectionStep::Stop,
        IncomingMessage::Failed => ConnectionStep::Stop,
        IncomingMessage::Other => ConnectionStep::Skip,
    }
}

} // verus!
