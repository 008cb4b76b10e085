//! Errors of failed tool calls.
//!
//! A tool-call failure travels as a plain message; the value here keeps
//! that message and converts into the internal-error value of the wire
//! taxonomy.

use vstd::prelude::*;
use vstd::string::StrSliceExecFns;
use vstd::string::StringExecFns;

use crate::error::RpcError;

verus! {

/// The four blank characters trimmed off a tool name's ends.
pub open spec fn is_blank_char(c: char) -> bool {
    c == ' ' || c == '\t' || c == '\n' || c == '\r'
}

/// `s` with leading and trailing blanks removed.
pub open spec fn trimmed(s: Seq<char>) -> Seq<char>
    decreases s.len(),
{
    if s.len() == 0 {
        s
    } else if is_blank_char(s[0]) {
        trimmed(s.drop_first())
    } else if is_blank_char(s[s.len() - 1]) {
        trimmed(s.drop_last())
    } else {
        s
    }
}

proof fn lemma_trimmed_subrange(s: Seq<char>, i: int, j: int)
    requires
        0 <= i <= j <= s.len(),
        forall|k: int| 0 <= k < i ==> is_blank_char(#[trigger] s[k]),
        forall|k: int| j <= k < s.len() ==> is_blank_char(#[trigger] s[k]),
        i < j ==> !is_blank_char(s[i]),
        i < j ==> !is_blank_char(s[j - 1]),
    ensures
        trimmed(s) == s.subrange(i, j),
    decreases s.len(),
{
    if s.len() == 0 {
        assert(s.subrange(0, 0) =~= s);
    } else if is_blank_char(s[0]) {
        let t = s.drop_first();
        if i == 0 {
            lemma_trimmed_subrange(t, 0, 0);
            assert(t.subrange(0, 0) =~= s.subrange(0, 0));
        } else {
            lemma_trimmed_subrange(t, i - 1, j - 1);
            assert(t.subrange(i - 1, j - 1) =~= s.subrange(i, j));
        }
    } else if is_blank_char(s[s.len() - 1]) {
        let t = s.drop_last();
        lemma_trimmed_subrange(t, i, j);
        assert(t.subrange(i, j) =~= s.subrange(i, j));
    } else {
        assert(s.subrange(0, s.len() as int) =~= s);
    }
}

fn blank(c: char) -> (r: bool)
    ensures
        r == is_blank_char(c),
{
    c == ' ' || c == '\t' || c == '\n' || c == '\r'
}

/// `s` with leading and trailing blanks removed.
#[verifier::loop_isolation(false)]
fn trim_str(s: &str) -> (r: &str)
    ensures
        r@ == trimmed(s@),
{
    let n = s.unicode_len();
    let mut i: usize = 0;
    while i < n && blank(s.get_char(i))
        invariant
            0 <= i <= n,
            forall|k: int| 0 <= k < i ==> is_blank_char(#[trigger] s@[k]),
        decreases n - i,
    {
        i = i + 1;
    }
    let mut j: usize = n;
    while j > i && blank(s.get_char(j - 1))
        invariant
            i <= j <= n,
            forall|k: int| j <= k < n ==> is_blank_char(#[trigger] s@[k]),
        decreases j,
    {
        j = j - 1;
    }
    let r = s.substring_char(i, j);
    proof {
        lemma_trimmed_subrange(s@, i as int, j as int);
    }
    r
}

/// A call of a tool that does not exist, remembered by its name.
#[derive(Debug, PartialEq, Eq)]
pub struct UnknownTool(pub String);

impl UnknownTool {
    /// The message the error displays.
    pub fn to_string(&self) -> (r: String)
        ensures
            r@ == "Unknown tool: "@ + self.0@,
    {
        "Unknown tool: ".to_owned().concat(self.0.as_str())
    }
}

/// The error of a failed tool call: any failure, carried as its
/// message.
#[derive(Debug, PartialEq, Eq)]
pub struct CallToolError(pub String);

impl CallToolError {
    /// Wraps an unknown-tool error.
    pub fn new(err: UnknownTool) -> (r: Self)
        ensures
            r.0@ == "Unknown tool: "@ + err.0@,
    {
        CallToolError(err.to_string())
    }

    /// The error for a tool that does not exist.
    pub fn unknown_tool(tool_name: &str) -> (r: Self)
        ensures
            r.0@ == "Unknown tool: "@ + tool_name@,
    {
        CallToolError("Unknown tool: ".to_owned().concat(tool_name))
    }

    /// The error for invalid tool arguments.  The tool name is trimmed;
    /// a blank name yields the fixed complaint, any other name is
    /// quoted before the details (or a note that none were given).
    pub fn invalid_arguments(tool_name: &str, message: Option<String>) -> (r: Self)
        ensures
            trimmed(tool_name@).len() == 0 ==> r.0@
                == "Invalid arguments: tool name cannot be empty"@,
            trimmed(tool_name@).len() > 0 ==> r.0@ == "Invalid arguments for tool '"@ + trimmed(
                tool_name@,
            ) + "': "@ + (match message {
                Some(m) => m@,
                None => "no additional details provided"@,
            }),
    {
        let name = trim_str(tool_name);
        if name.is_empty() {
            CallToolError::from_message("Invalid arguments: tool name cannot be empty".to_owned())
        } else {
            let details: String = match message {
                Some(m) => m,
                None => "no additional details provided".to_owned(),
            };
            CallToolError(
                "Invalid arguments for tool '".to_owned().concat(name).concat("': ").concat(
                    details.as_str(),
                ),
            )
        }
    }

    /// An ad-hoc error from a plain message.
    pub fn from_message(message: String) -> (r: Self)
        ensures
            r.0 == message,
    {
        CallToolError(message)
    }

    /// The message the error displays.
    pub fn to_string(&self) -> (r: String)
        ensures
            r@ == self.0@,
    {
        self.0.clone()
    }
}

impl From<CallToolError> for RpcError {
    /// An internal error carrying the tool failure's message.
    fn from(value: CallToolError) -> (r: RpcError) {
        RpcError::internal_error().with_message(value.0)
    }
}

impl vstd::std_specs::convert::FromSpecImpl<CallToolError> for RpcError {
    open spec fn obeys_from_spec() -> bool {
        true
    }

    open spec fn from_spec(v: CallToolError) -> RpcError {
        RpcError { code: -32603i64, message: v.0, data: None }
    }
}

} // verus!
