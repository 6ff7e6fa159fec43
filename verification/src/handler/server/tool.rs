//! Tools: how a call's arguments are read, how a tool's return value
//! becomes the call's result, and the registry of a server's tools.
use vstd::prelude::*;
use vstd::string::StringExecFns;

use crate::error::{Error, ErrorCode, ErrorData, INVALID_PARAMS};
use crate::json::{
    empty_json_object, json_object_entries, json_object_get, json_object_keys, json_value_clone,
    no_entries, JsonObject,
};
use crate::key_map::{keys_unique, KeyMap};
use crate::model::{CallToolResult, ConstString, Content, IntoContents, Tool};

verus! {

pub struct ToolV2 {}

/// Return values of tools, which become the result of the call.
pub trait IntoCallToolResult {
    fn into_call_tool_result(self) -> Result<CallToolResult, Error>;
}

impl IntoCallToolResult for () {
    /// A success with no content.
    fn into_call_tool_result(self) -> (r: Result<CallToolResult, Error>)
        ensures
            r matches Ok(c) && c.content@ == Seq::<Content>::empty() && c.is_error == Some(false),
    {
        Ok(CallToolResult::success(Vec::new()))
    }
}

impl<T: IntoContents> IntoCallToolResult for T {
    /// A success whose content is what the value turns into.
    fn into_call_tool_result(self) -> (r: Result<CallToolResult, Error>)
        ensures
            r matches Ok(c) && c.content@ == self.contents_of() && c.is_error == Some(false),
    {
        Ok(CallToolResult::success(self.into_contents()))
    }
}

impl<T: IntoContents, E: IntoContents> IntoCallToolResult for Result<T, E> {
    /// A success made of the value, or a failed call made of the error:
    /// the tool's error is reported inside the result, not as an error of
    /// the request.
    fn into_call_tool_result(self) -> (r: Result<CallToolResult, Error>)
        ensures
            self matches Ok(v) ==> (r matches Ok(c) && c.content@ == v.contents_of() && c.is_error
                == Some(false)),
            self matches Err(e) ==> (r matches Ok(c) && c.content@ == e.contents_of() && c.is_error
                == Some(true)),
    {
        match self {
            Ok(value) => Ok(CallToolResult::success(value.into_contents())),
            Err(error) => Ok(CallToolResult::error(error.into_contents())),
        }
    }
}

impl IntoCallToolResult for Result<CallToolResult, Error> {
    /// The result itself.
    fn into_call_tool_result(self) -> (r: Result<CallToolResult, Error>)
        ensures
            r == self,
    {
        self
    }
}

/// Extracts the argument named `K::VALUE` of a call.
pub struct Parameter<K: ConstString, V>(pub K, pub V);

/// Extracts all the arguments of a call as one value.
#[derive(Debug, Clone)]
pub struct Parameters<P>(pub P);

/// Extracts the service that a tool belongs to.
pub struct Callee<'a, S>(pub &'a S);

/// Extracts the name of the tool called.
pub struct ToolName(pub String);

/// Marks a handler that is an async function of the extracted parts.
pub struct AsyncAdapter<P, Fut, R>(pub std::marker::PhantomData<(P, Fut, R)>);

/// Marks a handler that is a plain function of the extracted parts.
pub struct SyncAdapter<P, R>(pub std::marker::PhantomData<(P, R)>);

/// The error of a call without the argument `field`.
pub fn missing_parameter(field: &str) -> (r: ErrorData)
    ensures
        r.code == ErrorCode(INVALID_PARAMS),
        r.message@ == "missing parameter "@ + field@,
        r.data is None,
{
    ErrorData::invalid_params(String::from_str("missing parameter ").concat(field), None)
}

/// The error of an argument `field` that does not read as the type wanted;
/// `error` says why.
pub fn parameter_deserialize_error(field: &str, error: &str) -> (r: ErrorData)
    ensures
        r.code == ErrorCode(INVALID_PARAMS),
        r.message@ == "failed to deserialize parameter "@ + field@ + ": "@ + error@,
        r.data is None,
{
    let message = String::from_str("failed to deserialize parameter ").concat(field).concat(
        ": ",
    ).concat(error);
    ErrorData::invalid_params(message, None)
}

/// The error of arguments that do not read as the type wanted; `error`
/// says why.
pub fn parameters_deserialize_error(error: &str) -> (r: ErrorData)
    ensures
        r.code == ErrorCode(INVALID_PARAMS),
        r.message@ == "failed to deserialize parameters: "@ + error@,
        r.data is None,
{
    ErrorData::invalid_params(String::from_str("failed to deserialize parameters: ").concat(error), None)
}

/// The JSON value of the argument `field` of a call, or the error that it
/// is missing: the call has no arguments at all, or none of that name.
pub fn lookup_parameter(arguments: &Option<JsonObject>, field: &str) -> (r: Result<
    serde_json::Value,
    ErrorData,
>)
    ensures
        r is Ok <==> (*arguments matches Some(a) && json_object_keys(a).contains(field@)),
        r matches Ok(v) ==> (*arguments matches Some(a) && v == json_object_entries(a)[field@]),
        r matches Err(e) ==> e.code == ErrorCode(INVALID_PARAMS) && e.message@ == "missing parameter "@
            + field@ && e.data is None,
{
    match arguments {
        None => Err(missing_parameter(field)),
        Some(a) => match json_object_get(a, field) {
            None => Err(missing_parameter(field)),
            Some(v) => Ok(json_value_clone(v)),
        },
    }
}

/// The arguments of a call, or an empty object when it has none.
pub fn arguments_or_empty(arguments: Option<JsonObject>) -> (r: JsonObject)
    ensures
        arguments matches Some(a) ==> r == a,
        arguments is None ==> json_object_entries(r) == no_entries(),
{
    match arguments {
        Some(a) => a,
        None => empty_json_object(),
    }
}

/// `<Arc<T> as Clone>::clone`: another handle to the same value.
#[verifier::external_body]
fn arc_clone<T>(a: &std::sync::Arc<T>) -> (r: std::sync::Arc<T>)
    ensures
        r == *a,
{
    std::sync::Arc::clone(a)
}

impl Clone for Tool {
    fn clone(&self) -> (r: Self)
        ensures
            r == *self,
    {
        Tool {
            name: self.name.clone(),
            description: self.description.clone(),
            input_schema: arc_clone(&self.input_schema),
        }
    }
}

/// A registered tool: how to call it, and what it is.
pub struct ToolBoxItem<C> {
    pub call: C,
    pub attr: Tool,
}

/// The tools of a server, by name; `C` is how a tool is called.
pub struct ToolBox<C> {
    map: KeyMap<String, ToolBoxItem<C>>,
}

impl<C> ToolBox<C> {
    #[verifier::type_invariant]
    spec fn inv(self) -> bool {
        forall|k: Seq<char>| #[trigger] self.map@.dom().contains(k) ==> self.map@[k].attr.name@ == k
    }

    /// The registered tools, by name.
    pub closed spec fn tools(self) -> Map<Seq<char>, ToolBoxItem<C>> {
        self.map@
    }

    /// No tool.
    pub fn new() -> (r: Self)
        ensures
            r.tools() == Map::<Seq<char>, ToolBoxItem<C>>::empty(),
    {
        ToolBox { map: KeyMap::new() }
    }

    /// Registers a tool under its name; a tool of the same name is replaced.
    pub fn add(&mut self, attr: Tool, handler: C)
        ensures
            final(self).tools() == old(self).tools().insert(
                attr.name@,
                ToolBoxItem { call: handler, attr },
            ),
    {
        proof {
            use_type_invariant(&*self);
        }
        let mut map: KeyMap<String, ToolBoxItem<C>> = KeyMap::new();
        std::mem::swap(&mut map, &mut self.map);
        let key = attr.name.clone();
        let _ = map.insert(key, ToolBoxItem { call: handler, attr });
        self.map = map;
    }

    /// Unregisters the tool of that name, if there is one.
    pub fn remove<H, A>(&mut self, name: &str)
        ensures
            final(self).tools() == old(self).tools().remove(name@),
    {
        proof {
            use_type_invariant(&*self);
        }
        let mut map: KeyMap<String, ToolBoxItem<C>> = KeyMap::new();
        std::mem::swap(&mut map, &mut self.map);
        let key = String::from_str(name);
        let _ = map.remove(&key);
        self.map = map;
    }

    /// The tool of that name, to be called, or the error that there is none.
    pub fn call(&self, name: &str) -> (r: Result<&C, ErrorData>)
        ensures
            r is Ok <==> self.tools().dom().contains(name@),
            r matches Ok(c) ==> *c == self.tools()[name@].call,
            r matches Err(e) ==> e.code == ErrorCode(INVALID_PARAMS) && e.message@
                == "tool not found"@ && e.data is None,
    {
        let key = String::from_str(name);
        match self.map.get(&key) {
            Some(item) => Ok(&item.call),
            None => {
                proof {
                    reveal_strlit("tool not found");
                }
                Err(ErrorData::invalid_params(String::from_str("tool not found"), None))
            },
        }
    }

    /// The registered tools, each once.
    pub fn list(&self) -> (r: Vec<Tool>)
        ensures
            r@.len() == self.tools().len(),
            forall|i: int|
                0 <= i < r@.len() ==> #[trigger] self.tools().dom().contains(r@[i].name@) && r@[i]
                    == self.tools()[r@[i].name@].attr,
            forall|i: int, j: int| 0 <= i < j < r@.len() ==> r@[i].name@ != r@[j].name@,
            forall|k: Seq<char>|
                #[trigger] self.tools().dom().contains(k) ==> exists|i: int|
                    0 <= i < r@.len() && r@[i].name@ == k,
    {
        proof {
            use_type_invariant(self);
        }
        let n = self.map.len();
        let mut out: Vec<Tool> = Vec::new();
        let mut i: usize = 0;
        while i < n
            invariant
                n == self.map.entry_seq().len(),
                i <= n,
                out@.len() == i,
                keys_unique(self.map.entry_seq()),
                forall|k: Seq<char>|
                    #[trigger] self.map@.dom().contains(k) ==> self.map@[k].attr.name@ == k,
                forall|j: int|
                    0 <= j < i ==> #[trigger] out@[j] == self.map.entry_seq()[j].1.attr
                        && out@[j].name@ == self.map.entry_seq()[j].0@ && self.map@.dom().contains(
                        self.map.entry_seq()[j].0@,
                    ) && self.map@[self.map.entry_seq()[j].0@] == self.map.entry_seq()[j].1,
            decreases n - i,
        {
            let entry = self.map.entry_at(i);
            out.push(entry.1.attr.clone());
            i = i + 1;
        }
        proof {
            assert forall|k: Seq<char>| #[trigger] self.tools().dom().contains(k) implies exists|j: int|
                0 <= j < out@.len() && out@[j].name@ == k by {
                let j = choose|j: int|
                    0 <= j < self.map.entry_seq().len() && self.map.entry_seq()[j].0@ == k;
                assert(out@[j].name@ == k);
            }
        }
        out
    }
}

/// After `add(attr, handler)`, calling the tool's name finds that handler
/// and that description; every tool of another name is as it was.
pub proof fn law_add_then_call<C>(
    before: ToolBox<C>,
    after: ToolBox<C>,
    attr: Tool,
    handler: C,
    other: Seq<char>,
)
    requires
        after.tools() == before.tools().insert(attr.name@, ToolBoxItem { call: handler, attr }),
        other != attr.name@,
    ensures
        after.tools().dom().contains(attr.name@),
        after.tools()[attr.name@].call == handler,
        after.tools()[attr.name@].attr == attr,
        after.tools().dom().contains(other) == before.tools().dom().contains(other),
        before.tools().dom().contains(other) ==> after.tools()[other] == before.tools()[other],
{
}

/// After `remove(name)`, calling that name fails; every tool of another
/// name is as it was.
pub proof fn law_remove_then_call<C>(
    before: ToolBox<C>,
    after: ToolBox<C>,
    name: Seq<char>,
    other: Seq<char>,
)
    requires
        after.tools() == before.tools().remove(name),
        other != name,
    ensures
        !after.tools().dom().contains(name),
        after.tools().dom().contains(other) == before.tools().dom().contains(other),
        before.tools().dom().contains(other) ==> after.tools()[other] == before.tools()[other],
{
}

/// A name is listed once: after `add`, `list` holds one tool more when the
/// name is new, and as many as before when a tool of that name was there.
pub proof fn law_add_counts_names_once<C>(
    before: ToolBox<C>,
    after: ToolBox<C>,
    attr: Tool,
    handler: C,
)
    requires
        before.tools().dom().finite(),
        after.tools() == before.tools().insert(attr.name@, ToolBoxItem { call: handler, attr }),
    ensures
        before.tools().dom().contains(attr.name@) ==> after.tools().len() == before.tools().len(),
        !before.tools().dom().contains(attr.name@) ==> after.tools().len() == before.tools().len()
            + 1,
{
}

} // verus!
