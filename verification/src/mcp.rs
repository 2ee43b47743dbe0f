//! JSON-RPC 2.0 and MCP protocol types: the subset of MCP that a tool server
//! needs.

use crate::error::{io_error_text, json_error_text};
use crate::json::JsonValue;
use vstd::prelude::*;
use vstd::string::*;

verus! {

// ── JSON-RPC 2.0 incoming message ────────────────────────────────────────

/// An incoming message from the client, discriminated by the presence of `id`.
#[derive(Debug, Clone)]
pub enum IncomingMessage {
    /// A JSON-RPC request, which expects a response.
    Request { id: u64, method: String, params: Option<JsonValue> },
    /// A JSON-RPC notification, which expects none.
    Notification { method: String, params: Option<JsonValue> },
}

// ── Standard JSON-RPC 2.0 error codes ────────────────────────────────────

pub const PARSE_ERROR: i32 = -32700;

pub const INVALID_REQUEST: i32 = -32600;

pub const METHOD_NOT_FOUND: i32 = -32601;

pub const INVALID_PARAMS: i32 = -32602;

pub const INTERNAL_ERROR: i32 = -32603;

// ── MCP initialize types ─────────────────────────────────────────────────

/// The parameters of the MCP `initialize` request.
#[derive(Debug, Clone)]
pub struct InitializeParams {
    pub protocol_version: String,
    pub capabilities: JsonValue,
    pub client_info: ImplementationInfo,
    /// Optional path to the liblldb shared library. When set, its parent
    /// directory is prepended to `PATH` when spawning the debug adapter.
    pub liblldb_path: Option<String>,
}

/// The name and version of an MCP client or server.
#[derive(Debug, Clone)]
pub struct ImplementationInfo {
    pub name: String,
    pub version: String,
}

/// The result of the MCP `initialize` request.
#[derive(Debug, Clone)]
pub struct InitializeResult {
    pub protocol_version: String,
    pub capabilities: ServerCapabilities,
    pub server_info: ImplementationInfo,
}

/// What the server offers.
#[derive(Debug, Clone)]
pub struct ServerCapabilities {
    pub tools: ToolsCapability,
}

/// The server's tool support.
#[derive(Debug, Clone)]
pub struct ToolsCapability {
    pub list_changed: bool,
}

// ── Tool types ───────────────────────────────────────────────────────────

/// A tool definition returned by `tools/list`.
#[derive(Debug)]
pub struct Tool {
    pub name: String,
    pub title: String,
    pub description: String,
    pub input_schema: JsonSchema,
}

/// A simplified JSON Schema for tool input parameters.
///
/// `properties` keeps the properties in the order they were added; a later
/// entry for a name stands for that name, as a map insertion would.
#[derive(Debug)]
pub struct JsonSchema {
    pub schema_type: String,
    pub properties: Option<Vec<(String, PropertySchema)>>,
    pub required: Option<Vec<String>>,
}

/// A single property within a tool's input schema.
#[derive(Debug)]
pub struct PropertySchema {
    pub prop_type: String,
    pub description: String,
    pub items: Option<Box<PropertySchema>>,
}

/// The text of a property's item type, if it has items.
pub open spec fn spec_item_type(p: PropertySchema) -> Option<Seq<char>> {
    match p.items {
        Some(b) => Some(b.prop_type@),
        None => None,
    }
}

/// The abstract content of a property: name, type, item type and description.
pub open spec fn spec_property_view(p: (String, PropertySchema)) -> (
    Seq<char>,
    Seq<char>,
    Option<Seq<char>>,
    Seq<char>,
) {
    (p.0@, p.1.prop_type@, spec_item_type(p.1), p.1.description@)
}

/// The abstract content of a property list.
pub open spec fn spec_properties_view(ps: Seq<(String, PropertySchema)>) -> Seq<
    (Seq<char>, Seq<char>, Option<Seq<char>>, Seq<char>),
> {
    ps.map_values(|p: (String, PropertySchema)| spec_property_view(p))
}

/// The text of each string.
pub open spec fn spec_texts(ss: Seq<String>) -> Seq<Seq<char>> {
    ss.map_values(|s: String| s@)
}

/// The properties of a schema, none when absent.
pub open spec fn spec_schema_properties(s: JsonSchema) -> Seq<
    (Seq<char>, Seq<char>, Option<Seq<char>>, Seq<char>),
> {
    match s.properties {
        Some(p) => spec_properties_view(p@),
        None => Seq::empty(),
    }
}

/// The required names of a schema, none when absent.
pub open spec fn spec_schema_required(s: JsonSchema) -> Seq<Seq<char>> {
    match s.required {
        Some(r) => spec_texts(r@),
        None => Seq::empty(),
    }
}

/// What a schema records of a property: its type, item type and description.
pub open spec fn spec_property_entry(p: PropertySchema) -> (Seq<char>, Option<Seq<char>>, Seq<char>) {
    (p.prop_type@, spec_item_type(p), p.description@)
}

/// The property entries of a schema, none when absent.
pub open spec fn spec_property_entries(s: JsonSchema) -> Seq<(String, PropertySchema)> {
    match s.properties {
        Some(p) => p@,
        None => Seq::empty(),
    }
}

/// A property list read as a map from name to what is recorded for it; a
/// later entry for a name stands for that name.
pub open spec fn spec_props_map(ps: Seq<(Seq<char>, Seq<char>, Option<Seq<char>>, Seq<char>)>) -> Map<
    Seq<char>,
    (Seq<char>, Option<Seq<char>>, Seq<char>),
>
    decreases ps.len(),
{
    if ps.len() == 0 {
        Map::empty()
    } else {
        spec_props_map(ps.drop_last()).insert(ps.last().0, (ps.last().1, ps.last().2, ps.last().3))
    }
}

/// The properties of a schema as a map from name to what is recorded for it.
pub open spec fn spec_properties_map(s: JsonSchema) -> Map<
    Seq<char>,
    (Seq<char>, Option<Seq<char>>, Seq<char>),
> {
    spec_props_map(spec_schema_properties(s))
}

/// Appending a property inserts it into the map.
proof fn lemma_props_map_push(
    ps: Seq<(Seq<char>, Seq<char>, Option<Seq<char>>, Seq<char>)>,
    e: (Seq<char>, Seq<char>, Option<Seq<char>>, Seq<char>),
)
    ensures
        spec_props_map(ps.push(e)) == spec_props_map(ps).insert(e.0, (e.1, e.2, e.3)),
{
    assert(ps.push(e).drop_last() =~= ps);
}

/// A name that no entry carries is not in the map.
proof fn lemma_props_map_absent(
    ps: Seq<(Seq<char>, Seq<char>, Option<Seq<char>>, Seq<char>)>,
    name: Seq<char>,
)
    requires
        forall|i: int| 0 <= i < ps.len() ==> ps[i].0 != name,
    ensures
        !spec_props_map(ps).contains_key(name),
    decreases ps.len(),
{
    if ps.len() > 0 {
        lemma_props_map_absent(ps.drop_last(), name);
    }
}

/// The map holds, for a name, what its last entry records.
proof fn lemma_props_map_last(
    ps: Seq<(Seq<char>, Seq<char>, Option<Seq<char>>, Seq<char>)>,
    name: Seq<char>,
    i: int,
)
    requires
        0 <= i < ps.len(),
        ps[i].0 == name,
        forall|j: int| i < j < ps.len() ==> ps[j].0 != name,
    ensures
        spec_props_map(ps).contains_key(name),
        spec_props_map(ps)[name] == (ps[i].1, ps[i].2, ps[i].3),
    decreases ps.len(),
{
    if i < ps.len() - 1 {
        lemma_props_map_last(ps.drop_last(), name, i);
    }
}

/// Adding properties of two distinct names gives the same properties in
/// either order: only the last entry for a name counts, and entries for
/// other names do not interfere.
pub proof fn lemma_property_order_irrelevant(
    s: JsonSchema,
    n1: Seq<char>,
    p1: PropertySchema,
    n2: Seq<char>,
    p2: PropertySchema,
)
    requires
        n1 != n2,
    ensures
        spec_properties_map(s).insert(n1, spec_property_entry(p1)).insert(
            n2,
            spec_property_entry(p2),
        ) == spec_properties_map(s).insert(n2, spec_property_entry(p2)).insert(
            n1,
            spec_property_entry(p1),
        ),
{
    let m = spec_properties_map(s);
    assert(m.insert(n1, spec_property_entry(p1)).insert(n2, spec_property_entry(p2)) =~= m.insert(
        n2,
        spec_property_entry(p2),
    ).insert(n1, spec_property_entry(p1)));
}

impl JsonSchema {
    /// Create a new object-type schema with no properties.
    pub fn new_object() -> (r: Self)
        ensures
            r.schema_type@ == "object"@,
            r.properties is Some,
            r.required is Some,
            spec_schema_properties(r) == Seq::<
                (Seq<char>, Seq<char>, Option<Seq<char>>, Seq<char>),
            >::empty(),
            spec_schema_required(r) == Seq::<Seq<char>>::empty(),
    {
        let r = JsonSchema {
            schema_type: String::from_str("object"),
            properties: Some(Vec::new()),
            required: Some(Vec::new()),
        };
        assert(spec_schema_properties(r) =~= Seq::<
            (Seq<char>, Seq<char>, Option<Seq<char>>, Seq<char>),
        >::empty());
        assert(spec_schema_required(r) =~= Seq::<Seq<char>>::empty());
        r
    }

    /// Add a required property to the schema.
    pub fn with_required(self, name: &str, prop: PropertySchema) -> (r: Self)
        ensures
            r.schema_type == self.schema_type,
            r.properties is Some,
            r.required is Some,
            spec_schema_properties(r) == spec_schema_properties(self).push(
                (name@, prop.prop_type@, spec_item_type(prop), prop.description@),
            ),
            spec_schema_required(r) == spec_schema_required(self).push(name@),
            spec_property_entries(r).drop_last() == spec_property_entries(self),
            spec_property_entries(r).last().0@ == name@,
            spec_property_entries(r).last().1 == prop,
            spec_properties_map(r) == spec_properties_map(self).insert(
                name@,
                spec_property_entry(prop),
            ),
    {
        proof {
            lemma_props_map_push(
                spec_schema_properties(self),
                (name@, prop.prop_type@, spec_item_type(prop), prop.description@),
            );
        }
        let JsonSchema { schema_type, properties, required } = self;
        let mut props = match properties {
            Some(p) => p,
            None => Vec::new(),
        };
        let ghost pv = spec_properties_view(props@);
        let entry = (String::from_str(name), prop);
        let ghost ev = spec_property_view(entry);
        props.push(entry);
        assert(spec_properties_view(props@) =~= pv.push(ev));
        let mut req = match required {
            Some(r) => r,
            None => Vec::new(),
        };
        let ghost rv = spec_texts(req@);
        req.push(String::from_str(name));
        assert(spec_texts(req@) =~= rv.push(name@));
        JsonSchema { schema_type, properties: Some(props), required: Some(req) }
    }

    /// Add an optional property to the schema.
    pub fn with_optional(self, name: &str, prop: PropertySchema) -> (r: Self)
        ensures
            r.schema_type == self.schema_type,
            r.properties is Some,
            r.required == self.required,
            spec_schema_properties(r) == spec_schema_properties(self).push(
                (name@, prop.prop_type@, spec_item_type(prop), prop.description@),
            ),
            spec_property_entries(r).drop_last() == spec_property_entries(self),
            spec_property_entries(r).last().0@ == name@,
            spec_property_entries(r).last().1 == prop,
            spec_properties_map(r) == spec_properties_map(self).insert(
                name@,
                spec_property_entry(prop),
            ),
    {
        proof {
            lemma_props_map_push(
                spec_schema_properties(self),
                (name@, prop.prop_type@, spec_item_type(prop), prop.description@),
            );
        }
        let JsonSchema { schema_type, properties, required } = self;
        let mut props = match properties {
            Some(p) => p,
            None => Vec::new(),
        };
        let ghost pv = spec_properties_view(props@);
        let entry = (String::from_str(name), prop);
        let ghost ev = spec_property_view(entry);
        props.push(entry);
        assert(spec_properties_view(props@) =~= pv.push(ev));
        JsonSchema { schema_type, properties: Some(props), required }
    }

    /// The property registered last under `name`, if any.
    pub fn property(&self, name: &str) -> (r: Option<&PropertySchema>)
        ensures
            r is Some ==> exists|i: int|
                0 <= i < spec_schema_properties(*self).len() && spec_schema_properties(*self)[i].0
                    == name@,
            r is None ==> forall|i: int|
                0 <= i < spec_schema_properties(*self).len() ==> spec_schema_properties(*self)[i].0
                    != name@,
            r matches Some(p) ==> exists|i: int|
                0 <= i < spec_schema_properties(*self).len() && spec_schema_properties(*self)[i]
                    == (name@, p.prop_type@, spec_item_type(*p), p.description@) && forall|j: int|
                    i < j < spec_schema_properties(*self).len() ==> spec_schema_properties(
                        *self,
                    )[j].0 != name@,
            match r {
                Some(p) => spec_properties_map(*self).contains_key(name@) && spec_properties_map(
                    *self,
                )[name@] == spec_property_entry(*p),
                None => !spec_properties_map(*self).contains_key(name@),
            },
    {
        match &self.properties {
            None => {
                proof {
                    lemma_props_map_absent(spec_schema_properties(*self), name@);
                }
                None
            },
            Some(props) => {
                let ghost pv = spec_properties_view(props@);
                let mut i = props.len();
                while i > 0
                    invariant
                        i <= props@.len(),
                        pv == spec_properties_view(props@),
                        pv == spec_schema_properties(*self),
                        forall|j: int| i <= j < pv.len() ==> pv[j].0 != name@,
                    decreases i,
                {
                    assert(pv[i - 1] == spec_property_view(props@[i - 1]));
                    if crate::text::str_eq(props[i - 1].0.as_str(), name) {
                        let p = &props[i - 1].1;
                        assert(pv[i - 1] == (name@, p.prop_type@, spec_item_type(*p), p.description@));
                        proof {
                            lemma_props_map_last(pv, name@, i - 1);
                        }
                        return Some(p);
                    }
                    i = i - 1;
                }
                proof {
                    lemma_props_map_absent(pv, name@);
                }
                None
            },
        }
    }
}

// ── Helper constructors for property schemas ─────────────────────────────

impl PropertySchema {
    /// A string property.
    pub fn string(description: &str) -> (r: Self)
        ensures
            r.prop_type@ == "string"@,
            r.description@ == description@,
            r.items is None,
    {
        PropertySchema {
            prop_type: String::from_str("string"),
            description: String::from_str(description),
            items: None,
        }
    }

    /// An integer property.
    pub fn integer(description: &str) -> (r: Self)
        ensures
            r.prop_type@ == "integer"@,
            r.description@ == description@,
            r.items is None,
    {
        PropertySchema {
            prop_type: String::from_str("integer"),
            description: String::from_str(description),
            items: None,
        }
    }

    /// A boolean property.
    pub fn boolean(description: &str) -> (r: Self)
        ensures
            r.prop_type@ == "boolean"@,
            r.description@ == description@,
            r.items is None,
    {
        PropertySchema {
            prop_type: String::from_str("boolean"),
            description: String::from_str(description),
            items: None,
        }
    }

    /// An array property whose items have type `item_type`.
    pub fn array_of(description: &str, item_type: &str) -> (r: Self)
        ensures
            r.prop_type@ == "array"@,
            r.description@ == description@,
            r.items matches Some(b) && b.prop_type@ == item_type@ && b.description@
                == Seq::<char>::empty() && b.items is None,
    {
        PropertySchema {
            prop_type: String::from_str("array"),
            description: String::from_str(description),
            items: Some(
                Box::new(
                    PropertySchema {
                        prop_type: String::from_str(item_type),
                        description: String::new(),
                        items: None,
                    },
                ),
            ),
        }
    }

    /// An object property whose values have type `item_type`.
    pub fn object_of(description: &str, item_type: &str) -> (r: Self)
        ensures
            r.prop_type@ == "object"@,
            r.description@ == description@,
            r.items matches Some(b) && b.prop_type@ == item_type@ && b.description@
                == Seq::<char>::empty() && b.items is None,
    {
        PropertySchema {
            prop_type: String::from_str("object"),
            description: String::from_str(description),
            items: Some(
                Box::new(
                    PropertySchema {
                        prop_type: String::from_str(item_type),
                        description: String::new(),
                        items: None,
                    },
                ),
            ),
        }
    }
}

// ── tools/list and tools/call ────────────────────────────────────────────

/// The result of `tools/list`.
#[derive(Debug)]
pub struct ListToolsResult {
    pub tools: Vec<Tool>,
}

/// The result of `tools/call`.
#[derive(Debug, Clone)]
pub struct CallToolResult {
    pub content: Vec<ContentBlock>,
    pub is_error: bool,
}

/// One block of a tool result.
#[derive(Debug, Clone)]
pub struct ContentBlock {
    pub content_type: String,
    pub text: String,
}

impl CallToolResult {
    /// Whether this result is one text block holding `text`, flagged as an
    /// error or not.
    pub open spec fn is_text(&self, text: Seq<char>, is_error: bool) -> bool {
        &&& self.content@.len() == 1
        &&& self.content@[0].content_type@ == "text"@
        &&& self.content@[0].text@ == text
        &&& self.is_error == is_error
    }

    /// Create a successful result with a single text block.
    pub fn success(text: String) -> (r: Self)
        ensures
            r.is_text(text@, false),
    {
        let block = ContentBlock { content_type: String::from_str("text"), text };
        let mut content: Vec<ContentBlock> = Vec::new();
        content.push(block);
        CallToolResult { content, is_error: false }
    }

    /// Create an error result (`is_error: true`, not a JSON-RPC error).
    pub fn error(message: String) -> (r: Self)
        ensures
            r.is_text(message@, true),
    {
        let block = ContentBlock { content_type: String::from_str("text"), text: message };
        let mut content: Vec<ContentBlock> = Vec::new();
        content.push(block);
        CallToolResult { content, is_error: true }
    }
}

// ── Errors ───────────────────────────────────────────────────────────────

/// Errors that can occur during MCP transport or message parsing.
#[derive(Debug)]
pub enum McpError {
    Io(std::io::Error),
    Json(serde_json::Error),
    Protocol(String),
    StdinClosed,
}

/// `prefix` followed by `rest`, as a new string.
fn prefixed(prefix: &str, rest: &str) -> (r: String)
    ensures
        r@ == prefix@ + rest@,
{
    let mut s = String::from_str(prefix);
    s.append(rest);
    s
}

impl McpError {
    /// A protocol error for unparsable input.
    pub fn parse_error(msg: &str) -> (r: Self)
        ensures
            r matches McpError::Protocol(m) && m@ == "Parse error: "@ + msg@,
    {
        McpError::Protocol(prefixed("Parse error: ", msg))
    }

    /// A protocol error for a malformed request.
    pub fn invalid_request(msg: &str) -> (r: Self)
        ensures
            r matches McpError::Protocol(m) && m@ == "Invalid request: "@ + msg@,
    {
        McpError::Protocol(prefixed("Invalid request: ", msg))
    }

    /// A protocol error for an unknown method.
    pub fn method_not_found(method: &str) -> (r: Self)
        ensures
            r matches McpError::Protocol(m) && m@ == "Method not found: "@ + method@,
    {
        McpError::Protocol(prefixed("Method not found: ", method))
    }
}

impl McpError {
    /// The message this error is reported by.
    pub fn message(&self) -> (r: String)
        ensures
            self matches McpError::Protocol(m) ==> r@ == "Protocol error: "@ + m@,
            self is StdinClosed ==> r@ == "Stdin closed unexpectedly"@,
            self is Io ==> r@.len() >= "IO error: "@.len() && r@.subrange(
                0,
                "IO error: "@.len() as int,
            ) == "IO error: "@,
            self is Json ==> r@.len() >= "JSON parse error: "@.len() && r@.subrange(
                0,
                "JSON parse error: "@.len() as int,
            ) == "JSON parse error: "@,
    {
        match self {
            McpError::Io(e) => {
                let t = io_error_text(e);
                let r = prefixed("IO error: ", t.as_str());
                assert(r@.subrange(0, "IO error: "@.len() as int) =~= "IO error: "@);
                r
            },
            McpError::Json(e) => {
                let t = json_error_text(e);
                let r = prefixed("JSON parse error: ", t.as_str());
                assert(r@.subrange(0, "JSON parse error: "@.len() as int) =~= "JSON parse error: "@);
                r
            },
            McpError::Protocol(m) => prefixed("Protocol error: ", m.as_str()),
            McpError::StdinClosed => String::from_str("Stdin closed unexpectedly"),
        }
    }
}

// ── Reading an incoming message ──────────────────────────────────────────

/// What a message's `id` member holds, as far as JSON-RPC routing cares.
pub enum MessageId {
    /// No `id` member.
    Absent,
    /// `"id": null`.
    Null,
    /// A number that fits in a `u64`.
    Number(u64),
    /// Anything else: a string, a negative or fractional number, ...
    Unsupported,
}

/// The text of an optional string.
pub open spec fn spec_opt_text(m: Option<String>) -> Option<Seq<char>> {
    match m {
        Some(s) => Some(s@),
        None => None,
    }
}

/// Whether `r` is what a JSON-RPC message with these parts reads as. A
/// message must be an object with a string `method`; it is a request when
/// its `id` is a `u64`, a notification when the `id` is null or absent, and
/// refused for any other `id`.
pub open spec fn spec_incoming(
    r: Result<IncomingMessage, McpError>,
    is_object: bool,
    method: Option<Seq<char>>,
    id: MessageId,
    params: Option<JsonValue>,
) -> bool {
    if !is_object {
        r matches Err(McpError::Protocol(m)) && m@ == "Invalid request: "@ + "message is not a JSON object"@
    } else {
        match method {
            None => r matches Err(McpError::Protocol(m)) && m@
                == "Invalid request: "@ + "missing 'method' field"@,
            Some(meth) => match id {
                MessageId::Absent => r matches Ok(IncomingMessage::Notification { method: mm, params: pp })
                    && mm@ == meth && pp == params,
                MessageId::Null => r matches Ok(IncomingMessage::Notification { method: mm, params: pp })
                    && mm@ == meth && pp == params,
                MessageId::Number(n) => r matches Ok(
                    IncomingMessage::Request { id: k, method: mm, params: pp },
                ) && k == n && mm@ == meth && pp == params,
                MessageId::Unsupported => r matches Err(McpError::Protocol(m)) && m@
                    == "Invalid request: "@ + "only numeric (u64) ids are supported"@,
            },
        }
    }
}

/// Reads a message from its parts: whether it is a JSON object, its
/// `method` when that is a string, what its `id` holds, and its `params`.
pub fn classify_incoming(
    is_object: bool,
    method: Option<String>,
    id: MessageId,
    params: Option<JsonValue>,
) -> (r: Result<IncomingMessage, McpError>)
    ensures
        spec_incoming(r, is_object, spec_opt_text(method), id, params),
{
    if !is_object {
        return Err(McpError::invalid_request("message is not a JSON object"));
    }
    match method {
        None => Err(McpError::invalid_request("missing 'method' field")),
        Some(meth) => match id {
            MessageId::Absent => Ok(IncomingMessage::Notification { method: meth, params }),
            MessageId::Null => Ok(IncomingMessage::Notification { method: meth, params }),
            MessageId::Number(n) => Ok(IncomingMessage::Request { id: n, method: meth, params }),
            MessageId::Unsupported => Err(
                McpError::invalid_request("only numeric (u64) ids are supported"),
            ),
        },
    }
}

/// The JSON value serde_json reads from a text, `None` when the text is not
/// JSON.
pub uninterp spec fn spec_json_parse(text: Seq<char>) -> Option<JsonValue>;

/// Parses a JSON text.
///
/// Trusted: calls `serde_json::from_str::<serde_json::Value>`; the contract
/// claims that it fails exactly when `spec_json_parse` is `None` and
/// otherwise gives that value.
#[verifier::external_body]
fn json_parse(text: &str) -> (r: Result<JsonValue, serde_json::Error>)
    ensures
        match r {
            Ok(v) => spec_json_parse(text@) == Some(v),
            Err(_) => spec_json_parse(text@) is None,
        },
{
    serde_json::from_str::<serde_json::Value>(text)
}

/// Whether a JSON value is an object.
pub uninterp spec fn spec_json_is_object(v: JsonValue) -> bool;

/// Whether a JSON value is an object.
///
/// Trusted: calls `serde_json::Value::is_object`; the contract only names
/// the result.
#[verifier::external_body]
fn json_is_object(v: &JsonValue) -> (r: bool)
    ensures
        r == spec_json_is_object(*v),
{
    v.is_object()
}

/// The member `key` of a JSON object; `None` when there is no such member
/// or the value is not an object.
pub uninterp spec fn spec_json_member(v: JsonValue, key: Seq<char>) -> Option<JsonValue>;

/// A copy of the member `key` of a JSON object.
///
/// Trusted: calls `serde_json::Value::get` with a string key and copies
/// what it finds; the contract only names the result.
#[verifier::external_body]
fn json_member(v: &JsonValue, key: &str) -> (r: Option<JsonValue>)
    ensures
        r == spec_json_member(*v, key@),
{
    v.get(key).cloned()
}

/// The text of a JSON string, `None` for any other value.
pub uninterp spec fn spec_json_as_str(v: JsonValue) -> Option<Seq<char>>;

/// The string a JSON value holds, if it is a string.
///
/// Trusted: calls `serde_json::Value::as_str` and copies the string; the
/// contract only names the result.
#[verifier::external_body]
fn json_as_str(v: &JsonValue) -> (r: Option<String>)
    ensures
        spec_opt_text(r) == spec_json_as_str(*v),
{
    v.as_str().map(|s| s.to_string())
}

/// Whether a JSON value is `null`.
pub uninterp spec fn spec_json_is_null(v: JsonValue) -> bool;

/// Whether a JSON value is `null`.
///
/// Trusted: calls `serde_json::Value::is_null`; the contract only names the
/// result.
#[verifier::external_body]
fn json_is_null(v: &JsonValue) -> (r: bool)
    ensures
        r == spec_json_is_null(*v),
{
    v.is_null()
}

/// The `u64` a JSON number holds when it is one, `None` otherwise.
pub uninterp spec fn spec_json_as_u64(v: JsonValue) -> Option<u64>;

/// The `u64` a JSON value holds, if it is a number that fits one.
///
/// Trusted: calls `serde_json::Value::as_u64`; the contract only names the
/// result.
#[verifier::external_body]
fn json_as_u64(v: &JsonValue) -> (r: Option<u64>)
    ensures
        r == spec_json_as_u64(*v),
{
    v.as_u64()
}

/// A message's `method`, when it is a string.
pub open spec fn spec_message_method(v: JsonValue) -> Option<Seq<char>> {
    match spec_json_member(v, "method"@) {
        Some(m) => spec_json_as_str(m),
        None => None,
    }
}

/// What a message's `id` holds.
pub open spec fn spec_message_id(v: JsonValue) -> MessageId {
    match spec_json_member(v, "id"@) {
        None => MessageId::Absent,
        Some(x) => if spec_json_is_null(x) {
            MessageId::Null
        } else {
            match spec_json_as_u64(x) {
                Some(n) => MessageId::Number(n),
                None => MessageId::Unsupported,
            }
        },
    }
}

/// What reading the line `text` gives: a parse error when it is not JSON,
/// else what `spec_incoming` says of the value's parts.
pub open spec fn spec_parsed(text: Seq<char>, r: Result<IncomingMessage, McpError>) -> bool {
    match spec_json_parse(text) {
        None => r matches Err(McpError::Protocol(m)) && m@.len() >= "Parse error: "@.len()
            && m@.subrange(0, "Parse error: "@.len() as int) == "Parse error: "@,
        Some(v) => spec_incoming(
            r,
            spec_json_is_object(v),
            spec_message_method(v),
            spec_message_id(v),
            spec_json_member(v, "params"@),
        ),
    }
}

/// Parses one line of JSON-RPC into an incoming message. Text that is not
/// JSON is a parse error; a JSON value is read by `classify_incoming`, from
/// whether it is an object, its string `method`, its `id` and its `params`.
pub fn parse_incoming(json_str: &str) -> (r: Result<IncomingMessage, McpError>)
    ensures
        spec_parsed(json_str@, r),
{
    let val = match json_parse(json_str) {
        Ok(v) => v,
        Err(e) => {
            let t = json_error_text(&e);
            let err = McpError::parse_error(t.as_str());
            proof {
                let m = "Parse error: "@ + t@;
                assert(m.subrange(0, "Parse error: "@.len() as int) =~= "Parse error: "@);
            }
            return Err(err);
        },
    };
    let is_object = json_is_object(&val);
    if !is_object {
        return classify_incoming(false, None, MessageId::Absent, None);
    }
    let method = match json_member(&val, "method") {
        Some(m) => json_as_str(&m),
        None => None,
    };
    let id = match json_member(&val, "id") {
        None => MessageId::Absent,
        Some(x) => if json_is_null(&x) {
            MessageId::Null
        } else {
            match json_as_u64(&x) {
                Some(n) => MessageId::Number(n),
                None => MessageId::Unsupported,
            }
        },
    };
    let params = json_member(&val, "params");
    let ghost (gm, gi, gp) = (method, id, params);
    let r = classify_incoming(true, method, id, params);
    assert(spec_incoming(r, true, spec_opt_text(gm), gi, gp));
    r
}

// ── Laws of reading a message ────────────────────────────────────────────

/// A JSON object with a string `method` and an `id` that is a number fitting
/// a `u64` (any such number, zero included) is read as a request with that
/// id, that method and the object's `params`.
pub proof fn lemma_numeric_id_is_request(
    text: Seq<char>,
    r: Result<IncomingMessage, McpError>,
    v: JsonValue,
    method: JsonValue,
    id: JsonValue,
    n: u64,
)
    requires
        spec_parsed(text, r),
        spec_json_parse(text) == Some(v),
        spec_json_is_object(v),
        spec_json_member(v, "method"@) == Some(method),
        spec_json_as_str(method) is Some,
        spec_json_member(v, "id"@) == Some(id),
        !spec_json_is_null(id),
        spec_json_as_u64(id) == Some(n),
    ensures
        r matches Ok(IncomingMessage::Request { id: k, method: m, params: p }) && k == n && Some(
            m@,
        ) == spec_json_as_str(method) && p == spec_json_member(v, "params"@),
{
}

/// A JSON object with a string `method` and a null or absent `id` is read
/// as a notification with that method and the object's `params`.
pub proof fn lemma_null_or_absent_id_is_notification(
    text: Seq<char>,
    r: Result<IncomingMessage, McpError>,
    v: JsonValue,
    method: JsonValue,
)
    requires
        spec_parsed(text, r),
        spec_json_parse(text) == Some(v),
        spec_json_is_object(v),
        spec_json_member(v, "method"@) == Some(method),
        spec_json_as_str(method) is Some,
        match spec_json_member(v, "id"@) {
            Some(id) => spec_json_is_null(id),
            None => true,
        },
    ensures
        r matches Ok(IncomingMessage::Notification { method: m, params: p }) && Some(m@)
            == spec_json_as_str(method) && p == spec_json_member(v, "params"@),
{
}

/// A message whose `id` is neither null nor a number fitting a `u64` is
/// refused, never answered as a request or dropped as a notification.
pub proof fn lemma_other_id_is_refused(
    text: Seq<char>,
    r: Result<IncomingMessage, McpError>,
    v: JsonValue,
    method: JsonValue,
    id: JsonValue,
)
    requires
        spec_parsed(text, r),
        spec_json_parse(text) == Some(v),
        spec_json_is_object(v),
        spec_json_member(v, "method"@) == Some(method),
        spec_json_as_str(method) is Some,
        spec_json_member(v, "id"@) == Some(id),
        !spec_json_is_null(id),
        spec_json_as_u64(id) is None,
    ensures
        r is Err,
{
}

/// A line that is not JSON, a JSON value that is not an object, and an
/// object without a string `method` are all refused.
pub proof fn lemma_malformed_is_refused(text: Seq<char>, r: Result<IncomingMessage, McpError>)
    requires
        spec_parsed(text, r),
        match spec_json_parse(text) {
            None => true,
            Some(v) => !spec_json_is_object(v) || match spec_json_member(v, "method"@) {
                Some(method) => spec_json_as_str(method) is None,
                None => true,
            },
        },
    ensures
        r is Err,
{
}

} // verus!
