//! The JSON form of the envelopes: what each is written as, what is read
//! back, and that reading what was written loses nothing.

use vstd::prelude::*;
use crate::json::{
    cloned_part, lemma_lookup_one, lemma_lookup_push, lemma_lookup_push_optional,
    lemma_lookup_two, lookup, optional_field, owned_part, push_optional, text_field, Json,
    JsonValue, ObjectBuilder,
};
use crate::json_text::{compact_text, parsed_text};
use crate::protocol::{
    ErrorView, IdView, JsonRpcError, JsonRpcId, JsonRpcNotification, JsonRpcRequest,
    JsonRpcResponse, NotificationView, RequestView, ResponseView,
};

verus! {

/// The JSON form of an id.
pub open spec fn id_json(id: IdView) -> JsonValue {
    match id {
        IdView::Number(n) => JsonValue::Int(n),
        IdView::String(s) => JsonValue::Str(s),
    }
}

/// The id that a document stands for: a 64-bit signed integer or a string.
pub open spec fn id_from_json(doc: JsonValue) -> Option<IdView> {
    match doc {
        JsonValue::Str(s) => Some(IdView::String(s)),
        _ => match doc.as_integer() {
            Some(n) => Some(IdView::Number(n)),
            None => None,
        },
    }
}

/// The JSON form of an optional part: `null` where it is absent.
pub open spec fn or_null(part: Option<JsonValue>) -> JsonValue {
    match part {
        Some(v) => v,
        None => JsonValue::Null,
    }
}

/// The JSON form of an optional id.
pub open spec fn optional_id_json(id: Option<IdView>) -> Option<JsonValue> {
    match id {
        Some(i) => Some(id_json(i)),
        None => None,
    }
}

/// The JSON form of an error object.
pub open spec fn error_json(e: ErrorView) -> JsonValue {
    JsonValue::Object(
        push_optional(
            seq![("code"@, JsonValue::Int(e.code)), ("message"@, JsonValue::Str(e.message))],
            "data"@,
            e.data,
        ),
    )
}

/// The JSON form of an optional error object.
pub open spec fn optional_error_json(e: Option<ErrorView>) -> Option<JsonValue> {
    match e {
        Some(e) => Some(error_json(e)),
        None => None,
    }
}

/// The JSON form of a request. Id and parameters are written as `null`
/// where absent.
pub open spec fn request_json(r: RequestView) -> JsonValue {
    JsonValue::Object(
        seq![
            ("jsonrpc"@, JsonValue::Str(r.jsonrpc)),
            ("id"@, or_null(optional_id_json(r.id))),
            ("method"@, JsonValue::Str(r.method)),
            ("params"@, or_null(r.params)),
        ],
    )
}

/// The JSON form of a response. Id, result and error are left out where
/// absent.
pub open spec fn response_json(r: ResponseView) -> JsonValue {
    JsonValue::Object(
        push_optional(
            push_optional(
                push_optional(
                    seq![("jsonrpc"@, JsonValue::Str(r.jsonrpc))],
                    "id"@,
                    optional_id_json(r.id),
                ),
                "result"@,
                r.result,
            ),
            "error"@,
            optional_error_json(r.error),
        ),
    )
}

/// The JSON form of a notification. Parameters are left out where absent.
pub open spec fn notification_json(n: NotificationView) -> JsonValue {
    JsonValue::Object(
        push_optional(
            seq![("jsonrpc"@, JsonValue::Str(n.jsonrpc)), ("method"@, JsonValue::Str(n.method))],
            "params"@,
            n.params,
        ),
    )
}

/// Whether an integer fits `i32`.
pub open spec fn fits_i32(n: int) -> bool {
    i32::MIN <= n <= i32::MAX
}

/// The error object that a document stands for: an object with an integer
/// `code` that fits 32 bits and a string `message`; `data` is optional.
pub open spec fn error_from_json(doc: JsonValue) -> Option<ErrorView> {
    match (doc.field("code"@), text_field(doc, "message"@)) {
        (Some(code), Some(message)) => match code.as_integer() {
            Some(n) => if fits_i32(n) {
                Some(ErrorView { code: n, message, data: optional_field(doc, "data"@) })
            } else {
                None
            },
            None => None,
        },
        _ => None,
    }
}

/// The request that a document stands for: an object with a string
/// `jsonrpc` and a string `method`; `id` is optional and, where present, a
/// 64-bit signed integer or a string; `params` is optional.
pub open spec fn request_from_json(doc: JsonValue) -> Option<RequestView> {
    match (text_field(doc, "jsonrpc"@), text_field(doc, "method"@)) {
        (Some(jsonrpc), Some(method)) => match optional_field(doc, "id"@) {
            Some(id) => match id_from_json(id) {
                Some(i) => Some(
                    RequestView {
                        jsonrpc,
                        id: Some(i),
                        method,
                        params: optional_field(doc, "params"@),
                    },
                ),
                None => None,
            },
            None => Some(
                RequestView { jsonrpc, id: None, method, params: optional_field(doc, "params"@) },
            ),
        },
        _ => None,
    }
}

/// The response that a document stands for: an object with a string
/// `jsonrpc`; `id`, `result` and `error` are optional, and an `id` or
/// `error` that is present must be one.
pub open spec fn response_from_json(doc: JsonValue) -> Option<ResponseView> {
    match text_field(doc, "jsonrpc"@) {
        Some(jsonrpc) => {
            let id = optional_field(doc, "id"@);
            let error = optional_field(doc, "error"@);
            if id is Some && id_from_json(id->0) is None {
                None
            } else if error is Some && error_from_json(error->0) is None {
                None
            } else {
                Some(
                    ResponseView {
                        jsonrpc,
                        id: match id {
                            Some(i) => id_from_json(i),
                            None => None,
                        },
                        result: optional_field(doc, "result"@),
                        error: match error {
                            Some(e) => error_from_json(e),
                            None => None,
                        },
                    },
                )
            }
        },
        None => None,
    }
}

/// The notification that a document stands for: an object with a string
/// `jsonrpc` and a string `method`; `params` is optional.
pub open spec fn notification_from_json(doc: JsonValue) -> Option<NotificationView> {
    match (text_field(doc, "jsonrpc"@), text_field(doc, "method"@)) {
        (Some(jsonrpc), Some(method)) => Some(
            NotificationView { jsonrpc, method, params: optional_field(doc, "params"@) },
        ),
        _ => None,
    }
}

impl JsonRpcId {
    /// The id as JSON.
    pub fn to_json(&self) -> (r: Json)
        ensures
            r@ == id_json(self@),
    {
        match self {
            JsonRpcId::Number(n) => Json::Int(*n),
            JsonRpcId::String(s) => Json::Str(s.clone()),
        }
    }

    /// Reads an id; `None` where the document is neither a 64-bit signed
    /// integer nor a string.
    pub fn from_json(doc: &Json) -> (r: Option<JsonRpcId>)
        ensures
            r.deep_view() == id_from_json(doc@),
    {
        match doc {
            Json::Str(s) => Some(JsonRpcId::String(s.clone())),
            _ => match doc.as_i64() {
                Some(n) => Some(JsonRpcId::Number(n)),
                None => None,
            },
        }
    }
}

fn optional_id_to_json(id: &Option<JsonRpcId>) -> (r: Option<Json>)
    ensures
        r.deep_view() == optional_id_json(id.deep_view()),
{
    match id {
        Some(i) => Some(i.to_json()),
        None => None,
    }
}

fn or_null_json(part: Option<Json>) -> (r: Json)
    ensures
        r@ == or_null(part.deep_view()),
{
    match part {
        Some(v) => v,
        None => Json::Null,
    }
}

impl JsonRpcError {
    /// The error object as JSON.
    pub fn to_json(&self) -> (r: Json)
        ensures
            r@ == error_json(self@),
    {
        let mut b = ObjectBuilder::new();
        b.put("code", Json::Int(self.code as i64));
        b.put("message", Json::Str(self.message.clone()));
        assert(b@ =~= seq![
            ("code"@, JsonValue::Int(self.code as int)),
            ("message"@, JsonValue::Str(self.message@)),
        ]);
        b.put_optional("data", cloned_part(&self.data));
        b.finish()
    }

    /// Reads an error object; `None` where the document is none.
    pub fn from_json(doc: &Json) -> (r: Option<JsonRpcError>)
        ensures
            r.deep_view() == error_from_json(doc@),
    {
        let code = match doc.get("code") {
            Some(c) => match c.as_i64() {
                Some(n) => if -2147483648i64 <= n && n <= 2147483647i64 {
                    n as i32
                } else {
                    return None;
                },
                None => {
                    return None;
                },
            },
            None => {
                return None;
            },
        };
        let message = match doc.get_str("message") {
            Some(m) => m.to_string(),
            None => {
                return None;
            },
        };
        let data = owned_part(doc.get_optional("data"));
        Some(JsonRpcError { code, message, data })
    }
}

fn optional_error_to_json(error: &Option<JsonRpcError>) -> (r: Option<Json>)
    ensures
        r.deep_view() == optional_error_json(error.deep_view()),
{
    match error {
        Some(e) => Some(e.to_json()),
        None => None,
    }
}

impl JsonRpcRequest {
    /// The request as JSON.
    pub fn to_json(&self) -> (r: Json)
        ensures
            r@ == request_json(self@),
    {
        let mut b = ObjectBuilder::new();
        b.put("jsonrpc", Json::Str(self.jsonrpc.clone()));
        b.put("id", or_null_json(optional_id_to_json(&self.id)));
        b.put("method", Json::Str(self.method.clone()));
        b.put("params", or_null_json(cloned_part(&self.params)));
        assert(b@ =~= seq![
            ("jsonrpc"@, JsonValue::Str(self@.jsonrpc)),
            ("id"@, or_null(optional_id_json(self@.id))),
            ("method"@, JsonValue::Str(self@.method)),
            ("params"@, or_null(self@.params)),
        ]);
        b.finish()
    }

    /// Reads a request; `None` where the document is none.
    pub fn from_json(doc: &Json) -> (r: Option<JsonRpcRequest>)
        ensures
            r.deep_view() == request_from_json(doc@),
    {
        let jsonrpc = match doc.get_str("jsonrpc") {
            Some(t) => t.to_string(),
            None => {
                return None;
            },
        };
        let method = match doc.get_str("method") {
            Some(m) => m.to_string(),
            None => {
                return None;
            },
        };
        let id = match doc.get_optional("id") {
            Some(i) => match JsonRpcId::from_json(i) {
                Some(id) => Some(id),
                None => {
                    return None;
                },
            },
            None => None,
        };
        let params = owned_part(doc.get_optional("params"));
        Some(JsonRpcRequest { jsonrpc, id, method, params })
    }

    /// The request as JSON text.
    pub fn encode(&self) -> (r: String)
        ensures
            r@ == compact_text(request_json(self@)),
    {
        self.to_json().to_text()
    }
}

impl DeepView for JsonRpcRequest {
    type V = RequestView;

    open spec fn deep_view(&self) -> RequestView {
        self@
    }
}

impl DeepView for JsonRpcNotification {
    type V = NotificationView;

    open spec fn deep_view(&self) -> NotificationView {
        self@
    }
}

impl JsonRpcResponse {
    /// The response as JSON.
    pub fn to_json(&self) -> (r: Json)
        ensures
            r@ == response_json(self@),
    {
        let mut b = ObjectBuilder::new();
        b.put("jsonrpc", Json::Str(self.jsonrpc.clone()));
        assert(b@ =~= seq![("jsonrpc"@, JsonValue::Str(self@.jsonrpc))]);
        b.put_optional("id", optional_id_to_json(&self.id));
        b.put_optional("result", cloned_part(&self.result));
        b.put_optional("error", optional_error_to_json(&self.error));
        b.finish()
    }

    /// Reads a response; `None` where the document is none.
    pub fn from_json(doc: &Json) -> (r: Option<JsonRpcResponse>)
        ensures
            r.deep_view() == response_from_json(doc@),
    {
        let jsonrpc = match doc.get_str("jsonrpc") {
            Some(t) => t.to_string(),
            None => {
                return None;
            },
        };
        let id = match doc.get_optional("id") {
            Some(i) => match JsonRpcId::from_json(i) {
                Some(id) => Some(id),
                None => {
                    return None;
                },
            },
            None => None,
        };
        let error = match doc.get_optional("error") {
            Some(e) => match JsonRpcError::from_json(e) {
                Some(error) => Some(error),
                None => {
                    return None;
                },
            },
            None => None,
        };
        let result = owned_part(doc.get_optional("result"));
        Some(JsonRpcResponse { jsonrpc, id, result, error })
    }

    /// The response as JSON text.
    pub fn encode(&self) -> (r: String)
        ensures
            r@ == compact_text(response_json(self@)),
    {
        self.to_json().to_text()
    }
}

impl JsonRpcNotification {
    /// The notification as JSON.
    pub fn to_json(&self) -> (r: Json)
        ensures
            r@ == notification_json(self@),
    {
        let mut b = ObjectBuilder::new();
        b.put("jsonrpc", Json::Str(self.jsonrpc.clone()));
        b.put("method", Json::Str(self.method.clone()));
        assert(b@ =~= seq![
            ("jsonrpc"@, JsonValue::Str(self@.jsonrpc)),
            ("method"@, JsonValue::Str(self@.method)),
        ]);
        b.put_optional("params", cloned_part(&self.params));
        b.finish()
    }

    /// Reads a notification; `None` where the document is none.
    pub fn from_json(doc: &Json) -> (r: Option<JsonRpcNotification>)
        ensures
            r.deep_view() == notification_from_json(doc@),
    {
        let jsonrpc = match doc.get_str("jsonrpc") {
            Some(t) => t.to_string(),
            None => {
                return None;
            },
        };
        let method = match doc.get_str("method") {
            Some(m) => m.to_string(),
            None => {
                return None;
            },
        };
        let params = owned_part(doc.get_optional("params"));
        Some(JsonRpcNotification { jsonrpc, method, params })
    }

    /// The notification as JSON text.
    pub fn encode(&self) -> (r: String)
        ensures
            r@ == compact_text(notification_json(self@)),
    {
        self.to_json().to_text()
    }
}

/// The request that a text stands for: what the text parses to, read as a
/// request.
pub open spec fn request_from_text(text: Seq<char>) -> Option<RequestView> {
    match parsed_text(text) {
        Some(doc) => request_from_json(doc),
        None => None,
    }
}

/// Decodes a request from JSON text. A text that is no JSON, or whose
/// document is no request, gives the parse error.
pub fn decode_request(text: &str) -> (r: Result<JsonRpcRequest, JsonRpcError>)
    ensures
        match r {
            Ok(req) => request_from_text(text@) == Some(req@),
            Err(e) => request_from_text(text@) is None && e@ == (ErrorView {
                code: crate::protocol::PARSE_ERROR as int,
                message: "Parse error"@,
                data: None,
            }),
        },
{
    match Json::parse(text) {
        Some(doc) => match JsonRpcRequest::from_json(&doc) {
            Some(req) => Ok(req),
            None => Err(JsonRpcError::parse_error()),
        },
        None => Err(JsonRpcError::parse_error()),
    }
}

/// The member names of the envelopes are pairwise different.
pub proof fn lemma_member_names_differ()
    ensures
        "jsonrpc"@ != "id"@,
        "jsonrpc"@ != "method"@,
        "jsonrpc"@ != "params"@,
        "jsonrpc"@ != "result"@,
        "jsonrpc"@ != "error"@,
        "id"@ != "method"@,
        "id"@ != "params"@,
        "id"@ != "result"@,
        "id"@ != "error"@,
        "method"@ != "params"@,
        "result"@ != "error"@,
        "code"@ != "message"@,
        "code"@ != "data"@,
        "message"@ != "data"@,
{
    reveal_strlit("jsonrpc");
    reveal_strlit("id");
    reveal_strlit("method");
    reveal_strlit("params");
    reveal_strlit("result");
    reveal_strlit("error");
    reveal_strlit("code");
    reveal_strlit("message");
    reveal_strlit("data");
    assert("jsonrpc"@.len() == 7);
    assert("id"@.len() == 2);
    assert("method"@.len() == 6);
    assert("params"@.len() == 6);
    assert("result"@.len() == 6);
    assert("error"@.len() == 5);
    assert("code"@.len() == 4);
    assert("message"@.len() == 7);
    assert("data"@.len() == 4);
    assert("method"@[0] != "params"@[0]);
    assert("code"@[0] != "data"@[0]);
}

/// Reading an id back from its JSON form gives the id.
pub proof fn id_round_trip(id: IdView)
    ensures
        id_from_json(id_json(id)) == Some(id),
        id_json(id) != JsonValue::Null,
{
}

/// Reading an error object back from its JSON form gives the error object,
/// wherever its code fits 32 bits and its data, if present, is not `null`.
pub proof fn error_round_trip(e: ErrorView)
    requires
        fits_i32(e.code),
        e.data != Some(JsonValue::Null),
    ensures
        error_from_json(error_json(e)) == Some(e),
{
    lemma_member_names_differ();
    let base = seq![("code"@, JsonValue::Int(e.code)), ("message"@, JsonValue::Str(e.message))];
    lemma_lookup_push_optional(base, "data"@, e.data, "code"@);
    lemma_lookup_push_optional(base, "data"@, e.data, "message"@);
    lemma_lookup_push_optional(base, "data"@, e.data, "data"@);
    lemma_lookup_two(
        "code"@,
        JsonValue::Int(e.code),
        "message"@,
        JsonValue::Str(e.message),
        "code"@,
    );
    lemma_lookup_two(
        "code"@,
        JsonValue::Int(e.code),
        "message"@,
        JsonValue::Str(e.message),
        "message"@,
    );
    lemma_lookup_two(
        "code"@,
        JsonValue::Int(e.code),
        "message"@,
        JsonValue::Str(e.message),
        "data"@,
    );
}

/// Reading a request back from its JSON form gives the request, wherever its
/// parameters, if present, are not `null`.
pub proof fn request_round_trip(r: RequestView)
    requires
        r.params != Some(JsonValue::Null),
    ensures
        request_from_json(request_json(r)) == Some(r),
{
    lemma_member_names_differ();
    let id = or_null(optional_id_json(r.id));
    let m1 = seq![("jsonrpc"@, JsonValue::Str(r.jsonrpc)), ("id"@, id)];
    let m2 = m1.push(("method"@, JsonValue::Str(r.method)));
    let m3 = m2.push(("params"@, or_null(r.params)));
    assert(request_json(r) == JsonValue::Object(m3)) by {
        assert(m3 =~= seq![
            ("jsonrpc"@, JsonValue::Str(r.jsonrpc)),
            ("id"@, id),
            ("method"@, JsonValue::Str(r.method)),
            ("params"@, or_null(r.params)),
        ]);
    }
    assert forall|wanted: Seq<char>|
        lookup(m3, wanted) == if wanted == "params"@ {
            Some(or_null(r.params))
        } else if wanted == "method"@ {
            Some(JsonValue::Str(r.method))
        } else if wanted == "id"@ {
            Some(id)
        } else if wanted == "jsonrpc"@ {
            Some(JsonValue::Str(r.jsonrpc))
        } else {
            None::<JsonValue>
        } by {
        lemma_lookup_push(m2, "params"@, or_null(r.params), wanted);
        lemma_lookup_push(m1, "method"@, JsonValue::Str(r.method), wanted);
        lemma_lookup_two("jsonrpc"@, JsonValue::Str(r.jsonrpc), "id"@, id, wanted);
    }
    if r.id is Some {
        id_round_trip(r.id->0);
    }
}

/// Reading a response back from its JSON form gives the response, wherever
/// its result, if present, is not `null` and its error, if present, has a
/// code that fits 32 bits and data that is not `null`.
pub proof fn response_round_trip(r: ResponseView)
    requires
        r.result != Some(JsonValue::Null),
        r.error is Some ==> fits_i32(r.error->0.code) && r.error->0.data != Some(JsonValue::Null),
    ensures
        response_from_json(response_json(r)) == Some(r),
{
    lemma_member_names_differ();
    let m0 = seq![("jsonrpc"@, JsonValue::Str(r.jsonrpc))];
    let m1 = push_optional(m0, "id"@, optional_id_json(r.id));
    let m2 = push_optional(m1, "result"@, r.result);
    let m3 = push_optional(m2, "error"@, optional_error_json(r.error));
    assert forall|wanted: Seq<char>|
        lookup(m3, wanted) == if wanted == "error"@ && r.error is Some {
            optional_error_json(r.error)
        } else if wanted == "result"@ && r.result is Some {
            r.result
        } else if wanted == "id"@ && r.id is Some {
            optional_id_json(r.id)
        } else if wanted == "jsonrpc"@ {
            Some(JsonValue::Str(r.jsonrpc))
        } else {
            None::<JsonValue>
        } by {
        lemma_lookup_push_optional(m2, "error"@, optional_error_json(r.error), wanted);
        lemma_lookup_push_optional(m1, "result"@, r.result, wanted);
        lemma_lookup_push_optional(m0, "id"@, optional_id_json(r.id), wanted);
        lemma_lookup_one("jsonrpc"@, JsonValue::Str(r.jsonrpc), wanted);
    }
    if r.id is Some {
        id_round_trip(r.id->0);
    }
    if r.error is Some {
        error_round_trip(r.error->0);
    }
}

/// Reading a notification back from its JSON form gives the notification,
/// wherever its parameters, if present, are not `null`.
pub proof fn notification_round_trip(n: NotificationView)
    requires
        n.params != Some(JsonValue::Null),
    ensures
        notification_from_json(notification_json(n)) == Some(n),
{
    lemma_member_names_differ();
    let base = seq![("jsonrpc"@, JsonValue::Str(n.jsonrpc)), ("method"@, JsonValue::Str(n.method))];
    assert forall|wanted: Seq<char>|
        lookup(push_optional(base, "params"@, n.params), wanted) == if wanted == "params"@
            && n.params is Some {
            n.params
        } else if wanted == "method"@ {
            Some(JsonValue::Str(n.method))
        } else if wanted == "jsonrpc"@ {
            Some(JsonValue::Str(n.jsonrpc))
        } else {
            None::<JsonValue>
        } by {
        lemma_lookup_push_optional(base, "params"@, n.params, wanted);
        lemma_lookup_two(
            "jsonrpc"@,
            JsonValue::Str(n.jsonrpc),
            "method"@,
            JsonValue::Str(n.method),
            wanted,
        );
    }
}

} // verus!
