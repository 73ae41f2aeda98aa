//! JSON-RPC with a single node: what is posted, and what an answer means.

use crate::json;
use crate::json::{json_debug, Json, JsonView};
use crate::text;
use crate::text::signed_text;
use vstd::prelude::*;

verus! {

/// Why a call has no result.
#[derive(Debug, PartialEq)]
pub enum RpcError {
    /// The node refused the call.
    Remote { code: i64, message: String, data: Option<Json> },
    /// The call did not reach the node, or its answer could not be read.
    Transport(String),
    /// The answer is not what the protocol promises.
    BadResponse(String),
}

/// The error member of an answer.
#[derive(Debug, PartialEq)]
pub struct RpcErrorBody {
    pub code: i64,
    pub message: String,
    pub data: Option<Json>,
}

/// An answer of the node.
#[derive(Debug, PartialEq)]
pub struct RpcResponse {
    pub result: Option<Json>,
    pub error: Option<RpcErrorBody>,
}

/// A request to be posted.
#[derive(Debug, PartialEq)]
pub struct RpcPost {
    pub url: String,
    /// The name and the value of the header that authorises the call.
    pub header: Option<(String, String)>,
    pub body: Json,
}

/// A client of one node.
#[derive(Debug, PartialEq, Eq)]
pub struct RpcClient {
    url: String,
    token: Option<String>,
    next_id: u64,
}

/// Why a call has no result, mathematically.
pub enum RpcErrorView {
    Remote { code: i64, message: Seq<char>, data: Option<JsonView> },
    Transport(Seq<char>),
    BadResponse(Seq<char>),
}

/// The error member of an answer, mathematically.
pub struct RpcErrorBodyView {
    pub code: i64,
    pub message: Seq<char>,
    pub data: Option<JsonView>,
}

/// An answer of the node, mathematically.
pub struct RpcResponseView {
    pub result: Option<JsonView>,
    pub error: Option<RpcErrorBodyView>,
}

/// A request to be posted, mathematically.
pub struct RpcPostView {
    pub url: Seq<char>,
    pub header: Option<(Seq<char>, Seq<char>)>,
    pub body: JsonView,
}

/// A client of one node, mathematically.
pub struct RpcClientView {
    pub url: Seq<char>,
    pub token: Option<Seq<char>>,
    pub next_id: u64,
}

/// An optional text, mathematically.
pub open spec fn text_option_view(s: Option<String>) -> Option<Seq<char>> {
    match s {
        Some(s) => Some(s@),
        None => None,
    }
}

impl View for RpcError {
    type V = RpcErrorView;

    open spec fn view(&self) -> RpcErrorView {
        match self {
            RpcError::Remote { code, message, data } => RpcErrorView::Remote {
                code: *code,
                message: message@,
                data: json::json_option_view(*data),
            },
            RpcError::Transport(s) => RpcErrorView::Transport(s@),
            RpcError::BadResponse(s) => RpcErrorView::BadResponse(s@),
        }
    }
}

impl View for RpcErrorBody {
    type V = RpcErrorBodyView;

    open spec fn view(&self) -> RpcErrorBodyView {
        RpcErrorBodyView {
            code: self.code,
            message: self.message@,
            data: json::json_option_view(self.data),
        }
    }
}

impl View for RpcResponse {
    type V = RpcResponseView;

    open spec fn view(&self) -> RpcResponseView {
        RpcResponseView {
            result: json::json_option_view(self.result),
            error: match self.error {
                Some(e) => Some(e@),
                None => None,
            },
        }
    }
}

impl View for RpcPost {
    type V = RpcPostView;

    open spec fn view(&self) -> RpcPostView {
        RpcPostView {
            url: self.url@,
            header: match self.header {
                Some(h) => Some((h.0@, h.1@)),
                None => None,
            },
            body: self.body@,
        }
    }
}

impl View for RpcClient {
    type V = RpcClientView;

    closed spec fn view(&self) -> RpcClientView {
        RpcClientView {
            url: self.url@,
            token: text_option_view(self.token),
            next_id: self.next_id,
        }
    }
}

/// The outcome of a call, mathematically.
pub open spec fn outcome_view(r: Result<Json, RpcError>) -> Result<JsonView, RpcErrorView> {
    match r {
        Ok(v) => Ok(v@),
        Err(e) => Err(e@),
    }
}

/// What an answer means: an error member decides, whatever else there is; an answer
/// with neither an error nor a result is a bad one.
pub open spec fn outcome_of(response: RpcResponseView) -> Result<JsonView, RpcErrorView> {
    match response.error {
        Some(e) => Err(
            RpcErrorView::Remote { code: e.code, message: e.message, data: e.data },
        ),
        None => match response.result {
            Some(v) => Ok(v),
            None => Err(RpcErrorView::BadResponse("missing result"@)),
        },
    }
}

/// The body of a request.
pub open spec fn envelope(id: u64, method: Seq<char>, params: JsonView) -> JsonView {
    JsonView::Object(
        seq![
            ("jsonrpc"@, JsonView::Text("2.0"@)),
            ("id"@, JsonView::Unsigned(id)),
            ("method"@, JsonView::Text(method)),
            ("params"@, params),
        ],
    )
}

impl RpcClientView {
    /// The request that the client posts next for a call.
    pub open spec fn post(self, method: Seq<char>, params: JsonView) -> RpcPostView {
        RpcPostView {
            url: self.url,
            header: match self.token {
                Some(t) => Some(("x-rabbit-token"@, t)),
                None => None,
            },
            body: envelope(self.next_id, method, params),
        }
    }

    /// The client after a call: the next request has the next number, and after the
    /// largest number comes zero.
    pub open spec fn after_post(self) -> RpcClientView {
        RpcClientView {
            next_id: if self.next_id == u64::MAX {
                0
            } else {
                (self.next_id + 1) as u64
            },
            ..self
        }
    }
}

/// A parameter list of one text.
pub open spec fn one_text(s: Seq<char>) -> JsonView {
    JsonView::Array(seq![JsonView::Text(s)])
}

/// A parameter list of one value.
pub open spec fn one_value(v: JsonView) -> JsonView {
    JsonView::Array(seq![v])
}

/// A parameter list of one value.
pub(crate) fn list_of(v: Json) -> (r: Json)
    ensures
        r@ == one_value(v@),
{
    let mut items: Vec<Json> = Vec::new();
    items.push(v);
    let r = Json::Array(items);
    assert(r@->Array_0 =~= seq![v@]);
    r
}

/// The body of a request.
pub fn request_envelope(id: u64, method: &str, params: Json) -> (r: Json)
    ensures
        r@ == envelope(id, method@, params@),
{
    let mut members: Vec<(String, Json)> = Vec::new();
    members.push(("jsonrpc".to_string(), Json::Text("2.0".to_string())));
    members.push(("id".to_string(), Json::Unsigned(id)));
    members.push(("method".to_string(), Json::Text(method.to_string())));
    members.push(("params".to_string(), params));
    let r = Json::Object(members);
    proof {
        reveal_with_fuel(crate::json::json_view, 2);
    }
    assert(r@->Object_0 =~= envelope(id, method@, params@)->Object_0);
    r
}

impl RpcErrorView {
    /// The message of the error.
    pub open spec fn message(self) -> Seq<char> {
        match self {
            RpcErrorView::Remote { code, message, data } => "rpc error code "@
                + text::signed_decimal(code as int) + ": "@ + message + " (data: "@
                + json::json_debug_of(data) + ")"@,
            RpcErrorView::Transport(e) => "transport error: "@ + e,
            RpcErrorView::BadResponse(e) => "unexpected response: "@ + e,
        }
    }
}

impl RpcError {
    /// The message of the error.
    pub fn message(&self) -> (r: String)
        ensures
            r@ == self@.message(),
    {
        match self {
            RpcError::Remote { code, message, data } => {
                let mut s = "rpc error code ".to_string();
                s.append(signed_text(*code).as_str());
                s.append(": ");
                s.append(message.as_str());
                s.append(" (data: ");
                s.append(json_debug(data).as_str());
                s.append(")");
                s
            },
            RpcError::Transport(e) => {
                let mut s = "transport error: ".to_string();
                s.append(e.as_str());
                s
            },
            RpcError::BadResponse(e) => {
                let mut s = "unexpected response: ".to_string();
                s.append(e.as_str());
                s
            },
        }
    }
}

impl RpcResponse {
    /// What the answer means for the call.
    pub fn into_result(self) -> (r: Result<Json, RpcError>)
        ensures
            outcome_view(r) == outcome_of(self@),
    {
        match self.error {
            Some(e) => Err(
                RpcError::Remote { code: e.code, message: e.message, data: e.data },
            ),
            None => match self.result {
                Some(v) => Ok(v),
                None => Err(RpcError::BadResponse("missing result".to_string())),
            },
        }
    }
}

impl RpcClient {
    /// A client of the node at that address, with the token that its writing methods
    /// ask for, if any.
    pub fn new(url: String, token: Option<String>) -> (r: RpcClient)
        ensures
            r@ == (RpcClientView { url: url@, token: text_option_view(token), next_id: 1 }),
    {
        RpcClient { url, token, next_id: 1 }
    }

    /// The request for any call.
    pub fn call(&mut self, method: &str, params: Json) -> (r: RpcPost)
        ensures
            r@ == old(self)@.post(method@, params@),
            final(self)@ == old(self)@.after_post(),
    {
        let id: u64 = self.next_id;
        self.next_id = id.wrapping_add(1);
        RpcPost {
            url: self.url.clone(),
            header: match &self.token {
                Some(t) => Some(("x-rabbit-token".to_string(), t.clone())),
                None => None,
            },
            body: request_envelope(id, method, params),
        }
    }

    /// `rabbit_getObject`: the latest version of a logical object.
    pub fn get_object(&mut self, object_id: &str) -> (r: RpcPost)
        ensures
            r@ == old(self)@.post("rabbit_getObject"@, one_text(object_id@)),
            final(self)@ == old(self)@.after_post(),
    {
        self.call("rabbit_getObject", list_of(Json::Text(object_id.to_string())))
    }

    /// `rabbit_getOutput`: a particular output.
    pub fn get_output(&mut self, output_id: &str) -> (r: RpcPost)
        ensures
            r@ == old(self)@.post("rabbit_getOutput"@, one_text(output_id@)),
            final(self)@ == old(self)@.after_post(),
    {
        self.call("rabbit_getOutput", list_of(Json::Text(output_id.to_string())))
    }

    /// `rabbit_simulateComputeTx`: a trial run that leaves no trace.
    pub fn simulate_compute_tx(&mut self, tx: &Json) -> (r: RpcPost)
        ensures
            r@ == old(self)@.post("rabbit_simulateComputeTx"@, one_value(tx@)),
            final(self)@ == old(self)@.after_post(),
    {
        self.call("rabbit_simulateComputeTx", list_of(tx.copy()))
    }

    /// `rabbit_submitComputeTx`: submits a transaction.
    pub fn submit_compute_tx(&mut self, tx: &Json) -> (r: RpcPost)
        ensures
            r@ == old(self)@.post("rabbit_submitComputeTx"@, one_value(tx@)),
            final(self)@ == old(self)@.after_post(),
    {
        self.call("rabbit_submitComputeTx", list_of(tx.copy()))
    }

    /// `rabbit_getComputeTxResult`: what became of a transaction.
    pub fn get_compute_tx_result(&mut self, tx_id: &str) -> (r: RpcPost)
        ensures
            r@ == old(self)@.post("rabbit_getComputeTxResult"@, one_text(tx_id@)),
            final(self)@ == old(self)@.after_post(),
    {
        self.call("rabbit_getComputeTxResult", list_of(Json::Text(tx_id.to_string())))
    }

    /// `rabbit_gasPrice`: the node's present base fee.
    pub fn gas_price(&mut self) -> (r: RpcPost)
        ensures
            r@ == old(self)@.post("rabbit_gasPrice"@, JsonView::Array(Seq::empty())),
            final(self)@ == old(self)@.after_post(),
    {
        let params = Json::Array(Vec::new());
        assert(params@->Array_0 =~= Seq::empty());
        self.call("rabbit_gasPrice", params)
    }
}

/// The client after that many calls.
pub open spec fn after_posts(client: RpcClientView, n: nat) -> RpcClientView
    decreases n,
{
    if n == 0 {
        client
    } else {
        after_posts(client, (n - 1) as nat).after_post()
    }
}

/// The client after that many calls has counted them, and is otherwise the same.
proof fn lemma_after_posts(client: RpcClientView, n: nat)
    ensures
        after_posts(client, n) == (RpcClientView {
            next_id: ((client.next_id + n) % 0x1_0000_0000_0000_0000) as u64,
            ..client
        }),
    decreases n,
{
    if n > 0 {
        lemma_after_posts(client, (n - 1) as nat);
    }
}

/// Any two calls of one client, the first after `i` calls and the second after `j`, are
/// told apart by their numbers, unless all the numbers there are lie between them; and
/// both carry the token.
pub proof fn law_calls_are_numbered_apart(
    client: RpcClientView,
    i: nat,
    first: Seq<char>,
    first_params: JsonView,
    j: nat,
    second: Seq<char>,
    second_params: JsonView,
)
    requires
        i < j < i + 0x1_0000_0000_0000_0000,
    ensures
        ({
            let a = after_posts(client, i).post(first, first_params);
            let b = after_posts(client, j).post(second, second_params);
            &&& a.body.get("id"@) == Some(JsonView::Unsigned(after_posts(client, i).next_id))
            &&& b.body.get("id"@) == Some(JsonView::Unsigned(after_posts(client, j).next_id))
            &&& a.body.get("id"@) != b.body.get("id"@)
            &&& a.header == b.header
            &&& (a.header is Some <==> client.token is Some)
        }),
{
    lemma_after_posts(client, i);
    lemma_after_posts(client, j);
    lemma_envelope_id(after_posts(client, i).next_id, first, first_params);
    lemma_envelope_id(after_posts(client, j).next_id, second, second_params);
}

/// The number of a request can be read from its body.
proof fn lemma_envelope_id(id: u64, method: Seq<char>, params: JsonView)
    ensures
        envelope(id, method, params).get("id"@) == Some(JsonView::Unsigned(id)),
{
    reveal_strlit("jsonrpc");
    reveal_strlit("id");
    let members = envelope(id, method, params)->Object_0;
    assert(members[0].0.len() != "id"@.len());
    assert(members.skip(1)[0] == members[1]);
    reveal_with_fuel(crate::json::member, 3);
}

/// A request says that it is JSON-RPC 2.0, and has its number, method and parameters as
/// they were given, and nothing else.
pub proof fn law_envelope_holds_the_call(id: u64, method: Seq<char>, params: JsonView)
    ensures
        ({
            let e = envelope(id, method, params);
            &&& e.get("jsonrpc"@) == Some(JsonView::Text("2.0"@))
            &&& e.get("id"@) == Some(JsonView::Unsigned(id))
            &&& e.get("method"@) == Some(JsonView::Text(method))
            &&& e.get("params"@) == Some(params)
            &&& e is Object && e->Object_0.len() == 4
        }),
{
    let members = envelope(id, method, params)->Object_0;
    reveal_strlit("jsonrpc");
    reveal_strlit("id");
    reveal_strlit("method");
    reveal_strlit("params");
    assert("jsonrpc"@.len() == 7 && "id"@.len() == 2);
    assert("method"@.len() == 6 && "method"@[0] == 'm');
    assert("params"@.len() == 6 && "params"@[0] == 'p');
    json::law_first_of_its_name(members, 0);
    json::law_first_of_its_name(members, 1);
    json::law_first_of_its_name(members, 2);
    json::law_first_of_its_name(members, 3);
}

/// A call is posted to the client's own node, under the next number, with the client's
/// token, where it has one, in the header that the node looks at; and only the number of
/// the next call changes.
pub proof fn law_call_goes_to_the_clients_node(
    client: RpcClientView,
    method: Seq<char>,
    params: JsonView,
)
    ensures
        ({
            let p = client.post(method, params);
            &&& p.url == client.url
            &&& p.body == envelope(client.next_id, method, params)
            &&& client.token is None ==> p.header is None
            &&& client.token matches Some(t) ==> p.header == Some(("x-rabbit-token"@, t))
            &&& client.after_post().url == client.url
            &&& client.after_post().token == client.token
            &&& client.after_post().next_id as int == (client.next_id + 1)
                % 0x1_0000_0000_0000_0000
        }),
{
}

/// A parameter list of one value is a list with that value and nothing else.
pub proof fn law_one_parameter_is_a_list_of_one(s: Seq<char>, v: JsonView)
    ensures
        one_text(s) is Array && one_text(s)->Array_0.len() == 1 && one_text(s)->Array_0[0]
            == JsonView::Text(s),
        one_value(v) is Array && one_value(v)->Array_0.len() == 1 && one_value(v)->Array_0[0] == v,
{
}

/// An answer is an error where it says so, with that error's own code, message and data;
/// else it is its result, even where that is null; and without either it is a bad one.
pub proof fn law_answer_means_what_it_says(response: RpcResponseView, v: JsonView)
    ensures
        response.error matches Some(e) ==> (outcome_of(response) matches Err(
            RpcErrorView::Remote { code, message, data },
        ) && code == e.code && message == e.message && data == e.data),
        response.error is None && response.result == Some(v) ==> outcome_of(response) == Ok::<
            JsonView,
            RpcErrorView,
        >(v),
        response.error is None && response.result is None ==> outcome_of(response) == Err::<
            JsonView,
            RpcErrorView,
        >(RpcErrorView::BadResponse("missing result"@)),
{
}

/// The message of an error holds all that is known of it.
pub proof fn law_error_message_holds_the_error(
    code: i64,
    message: Seq<char>,
    data: Option<JsonView>,
    e: Seq<char>,
)
    ensures
        (RpcErrorView::Remote { code, message, data }).message() == "rpc error code "@
            + text::signed_decimal(code as int) + ": "@ + message + " (data: "@
            + json::json_debug_of(data) + ")"@,
        RpcErrorView::Transport(e).message() == "transport error: "@ + e,
        RpcErrorView::BadResponse(e).message() == "unexpected response: "@ + e,
{
}

/// Errors, answers, requests and outcomes stand for what they hold.
pub proof fn law_answers_stand_for_what_they_hold(
    e: RpcError,
    r: RpcResponse,
    p: RpcPost,
    outcome: Result<Json, RpcError>,
    s: Option<String>,
)
    ensures
        match e {
            RpcError::Remote { code, message, data } => e@ matches RpcErrorView::Remote {
                code: c,
                message: m,
                data: d,
            } && c == code && m == message@ && (d is Some <==> data is Some) && (data matches Some(
                v,
            ) ==> d == Some(v@)),
            RpcError::Transport(t) => e@ == RpcErrorView::Transport(t@),
            RpcError::BadResponse(t) => e@ == RpcErrorView::BadResponse(t@),
        },
        r@.result is Some <==> r.result is Some,
        r.result matches Some(v) ==> r@.result == Some(v@),
        r@.error is Some <==> r.error is Some,
        r.error matches Some(b) ==> (r@.error matches Some(v) && v.code == b.code && v.message
            == b.message@ && (v.data is Some <==> b.data is Some) && (b.data matches Some(d)
            ==> v.data == Some(d@))),
        p@.url == p.url@,
        p@.header is Some <==> p.header is Some,
        p.header matches Some(h) ==> p@.header == Some((h.0@, h.1@)),
        p@.body == p.body@,
        outcome matches Ok(v) ==> outcome_view(outcome) == Ok::<JsonView, RpcErrorView>(v@),
        outcome matches Err(e) ==> outcome_view(outcome) == Err::<JsonView, RpcErrorView>(e@),
        text_option_view(s) is Some <==> s is Some,
        s matches Some(t) ==> text_option_view(s) == Some(t@),
{
}

} // verus!
