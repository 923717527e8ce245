//! JSON-RPC 2.0 envelopes: requests, responses, notifications and errors,
//! with their encoding to and decoding from JSON.

use vstd::prelude::*;
use vstd::std_specs::cmp::PartialEqSpecImpl;
use crate::json::{Json, JsonValue};
use crate::text::{join, str_eq};

verus! {

/// The protocol tag that every envelope carries.
pub const JSONRPC_VERSION: &'static str = "2.0";

/// Malformed message.
pub const PARSE_ERROR: i32 = -32700;

/// Well-formed JSON that is no acceptable request.
pub const INVALID_REQUEST: i32 = -32600;

/// Unknown method name.
pub const METHOD_NOT_FOUND: i32 = -32601;

/// Missing or invalid parameters.
pub const INVALID_PARAMS: i32 = -32602;

/// Failure inside the server.
pub const INTERNAL_ERROR: i32 = -32603;

/// The id of a request: a number or a string.
#[derive(Debug, Hash)]
pub enum JsonRpcId {
    Number(i64),
    String(String),
}

/// The model of a [`JsonRpcId`].
pub ghost enum IdView {
    Number(int),
    String(Seq<char>),
}

impl View for JsonRpcId {
    type V = IdView;

    open spec fn view(&self) -> IdView {
        match self {
            JsonRpcId::Number(n) => IdView::Number(*n as int),
            JsonRpcId::String(s) => IdView::String(s@),
        }
    }
}

impl DeepView for JsonRpcId {
    type V = IdView;

    open spec fn deep_view(&self) -> IdView {
        self@
    }
}

impl Clone for JsonRpcId {
    fn clone(&self) -> (r: JsonRpcId)
        ensures
            r@ == self@,
    {
        match self {
            JsonRpcId::Number(n) => JsonRpcId::Number(*n),
            JsonRpcId::String(s) => JsonRpcId::String(s.clone()),
        }
    }
}

impl PartialEq for JsonRpcId {
    fn eq(&self, other: &JsonRpcId) -> (r: bool) {
        match (self, other) {
            (JsonRpcId::Number(a), JsonRpcId::Number(b)) => *a == *b,
            (JsonRpcId::String(a), JsonRpcId::String(b)) => str_eq(a.as_str(), b.as_str()),
            _ => false,
        }
    }
}

impl PartialEqSpecImpl for JsonRpcId {
    open spec fn obeys_eq_spec() -> bool {
        true
    }

    open spec fn eq_spec(&self, other: &JsonRpcId) -> bool {
        self@ == other@
    }
}

impl Eq for JsonRpcId {

}

/// The error object of a response.
#[derive(Debug)]
pub struct JsonRpcError {
    pub code: i32,
    pub message: String,
    pub data: Option<Json>,
}

/// The model of a [`JsonRpcError`].
pub ghost struct ErrorView {
    pub code: int,
    pub message: Seq<char>,
    pub data: Option<JsonValue>,
}

impl View for JsonRpcError {
    type V = ErrorView;

    open spec fn view(&self) -> ErrorView {
        ErrorView { code: self.code as int, message: self.message@, data: self.data.deep_view() }
    }
}

impl DeepView for JsonRpcError {
    type V = ErrorView;

    open spec fn deep_view(&self) -> ErrorView {
        self@
    }
}

impl Clone for JsonRpcError {
    fn clone(&self) -> (r: JsonRpcError)
        ensures
            r@ == self@,
    {
        let data = match &self.data {
            Some(d) => Some(d.clone()),
            None => None,
        };
        JsonRpcError { code: self.code, message: self.message.clone(), data }
    }
}

impl JsonRpcError {
    /// The error for a message that is no JSON-RPC envelope.
    pub fn parse_error() -> (r: JsonRpcError)
        ensures
            r@ == (ErrorView { code: PARSE_ERROR as int, message: "Parse error"@, data: None }),
    {
        JsonRpcError { code: PARSE_ERROR, message: "Parse error".to_string(), data: None }
    }

    /// The error for an envelope that is no acceptable request.
    pub fn invalid_request(msg: &str) -> (r: JsonRpcError)
        ensures
            r@ == (ErrorView {
                code: INVALID_REQUEST as int,
                message: "Invalid request: "@ + msg@,
                data: None,
            }),
    {
        JsonRpcError { code: INVALID_REQUEST, message: join("Invalid request: ", msg), data: None }
    }

    /// The error for a method name that the server does not know.
    pub fn method_not_found(method: &str) -> (r: JsonRpcError)
        ensures
            r@ == (ErrorView {
                code: METHOD_NOT_FOUND as int,
                message: "Method not found: "@ + method@,
                data: None,
            }),
    {
        JsonRpcError {
            code: METHOD_NOT_FOUND,
            message: join("Method not found: ", method),
            data: None,
        }
    }

    /// The error for missing or unusable parameters.
    pub fn invalid_params(msg: &str) -> (r: JsonRpcError)
        ensures
            r@ == (ErrorView {
                code: INVALID_PARAMS as int,
                message: "Invalid params: "@ + msg@,
                data: None,
            }),
    {
        JsonRpcError { code: INVALID_PARAMS, message: join("Invalid params: ", msg), data: None }
    }

    /// The error for a failure inside the server.
    pub fn internal_error(msg: &str) -> (r: JsonRpcError)
        ensures
            r@ == (ErrorView {
                code: INTERNAL_ERROR as int,
                message: "Internal error: "@ + msg@,
                data: None,
            }),
    {
        JsonRpcError { code: INTERNAL_ERROR, message: join("Internal error: ", msg), data: None }
    }
}

/// A request; one without an id is a notification and gets no response.
#[derive(Debug, Clone)]
pub struct JsonRpcRequest {
    pub jsonrpc: String,
    pub id: Option<JsonRpcId>,
    pub method: String,
    pub params: Option<Json>,
}

/// The model of a [`JsonRpcRequest`].
pub ghost struct RequestView {
    pub jsonrpc: Seq<char>,
    pub id: Option<IdView>,
    pub method: Seq<char>,
    pub params: Option<JsonValue>,
}

impl View for JsonRpcRequest {
    type V = RequestView;

    open spec fn view(&self) -> RequestView {
        RequestView {
            jsonrpc: self.jsonrpc@,
            id: self.id.deep_view(),
            method: self.method@,
            params: self.params.deep_view(),
        }
    }
}

/// A response: the request's id and either a result or an error.
#[derive(Debug, Clone)]
pub struct JsonRpcResponse {
    pub jsonrpc: String,
    pub id: Option<JsonRpcId>,
    pub result: Option<Json>,
    pub error: Option<JsonRpcError>,
}

/// The model of a [`JsonRpcResponse`].
pub ghost struct ResponseView {
    pub jsonrpc: Seq<char>,
    pub id: Option<IdView>,
    pub result: Option<JsonValue>,
    pub error: Option<ErrorView>,
}

impl View for JsonRpcResponse {
    type V = ResponseView;

    open spec fn view(&self) -> ResponseView {
        ResponseView {
            jsonrpc: self.jsonrpc@,
            id: self.id.deep_view(),
            result: self.result.deep_view(),
            error: self.error.deep_view(),
        }
    }
}

impl DeepView for JsonRpcResponse {
    type V = ResponseView;

    open spec fn deep_view(&self) -> ResponseView {
        self@
    }
}

impl JsonRpcResponse {
    /// The response that carries `result`.
    pub fn success(id: Option<JsonRpcId>, result: Json) -> (r: JsonRpcResponse)
        ensures
            r@ == (ResponseView {
                jsonrpc: JSONRPC_VERSION@,
                id: id.deep_view(),
                result: Some(result@),
                error: None,
            }),
    {
        JsonRpcResponse {
            jsonrpc: JSONRPC_VERSION.to_string(),
            id,
            result: Some(result),
            error: None,
        }
    }

    /// The response that carries `error`.
    pub fn error(id: Option<JsonRpcId>, error: JsonRpcError) -> (r: JsonRpcResponse)
        ensures
            r@ == (ResponseView {
                jsonrpc: JSONRPC_VERSION@,
                id: id.deep_view(),
                result: None,
                error: Some(error@),
            }),
    {
        JsonRpcResponse {
            jsonrpc: JSONRPC_VERSION.to_string(),
            id,
            result: None,
            error: Some(error),
        }
    }
}

/// A message from server to client that expects no response.
#[derive(Debug, Clone)]
pub struct JsonRpcNotification {
    pub jsonrpc: String,
    pub method: String,
    pub params: Option<Json>,
}

/// The model of a [`JsonRpcNotification`].
pub ghost struct NotificationView {
    pub jsonrpc: Seq<char>,
    pub method: Seq<char>,
    pub params: Option<JsonValue>,
}

impl View for JsonRpcNotification {
    type V = NotificationView;

    open spec fn view(&self) -> NotificationView {
        NotificationView {
            jsonrpc: self.jsonrpc@,
            method: self.method@,
            params: self.params.deep_view(),
        }
    }
}

impl JsonRpcNotification {
    /// The notification of `method` with `params`.
    pub fn new(method: &str, params: Option<Json>) -> (r: JsonRpcNotification)
        ensures
            r@ == (NotificationView {
                jsonrpc: JSONRPC_VERSION@,
                method: method@,
                params: params.deep_view(),
            }),
    {
        JsonRpcNotification {
            jsonrpc: JSONRPC_VERSION.to_string(),
            method: method.to_string(),
            params,
        }
    }
}

} // verus!
