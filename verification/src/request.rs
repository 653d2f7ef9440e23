//! Request construction and dispatch interpretation: the HTTP method, the
//! payload built from the field store, the full argument list handed to the
//! external command-line client, and the reading of its captured output.
//!
//! The payload keeps a quirk of the tool's wire format: the fields are joined
//! as `key:value` lines and the joined text is then encoded as a single JSON
//! string value, not as a JSON object.

use vstd::prelude::*;
use vstd::string::StringExecFns;
use crate::fields::{FieldStore, FieldView};

verus! {

/// The HTTP method of a request. Closed set; every place where the method
/// decides behaviour matches on it exhaustively.
#[derive(Clone, Copy, Debug, PartialEq, Eq, Structural)]
pub enum Method {
    Get,
    Post,
}

impl Method {
    /// The exact text passed as the value of the tool's method flag.
    pub open spec fn flag_spec(self) -> Seq<char> {
        match self {
            Method::Get => "GET"@,
            Method::Post => "POST"@,
        }
    }

    pub fn flag(&self) -> (text: &'static str)
        ensures
            text@ == self.flag_spec(),
    {
        match self {
            Method::Get => "GET",
            Method::Post => "POST",
        }
    }
}

impl Default for Method {
    /// A fresh request defaults to GET.
    fn default() -> (method: Method)
        ensures
            method == Method::Get,
    {
        Method::Get
    }
}

/// One field as a payload line: its key and value joined by a colon.
pub open spec fn field_line(f: FieldView) -> Seq<char> {
    f.key + ":"@ + f.value
}

/// All fields as payload lines, in store order, separated by newlines.
pub open spec fn joined_fields(fs: Seq<FieldView>) -> Seq<char>
    decreases fs.len(),
{
    if fs.len() == 0 {
        Seq::empty()
    } else if fs.len() == 1 {
        field_line(fs[0])
    } else {
        joined_fields(fs.drop_last()) + "\n"@ + field_line(fs.last())
    }
}

/// What `serde_json` returns when it encodes a Rust string as JSON: the
/// value surrounded by quotes, with the characters that JSON cannot carry
/// verbatim escaped. A function of the characters alone.
pub uninterp spec fn json_string_of(s: Seq<char>) -> Seq<char>;

/// Relies on `serde_json::to_string`: a string serializes as a JSON string
/// value determined by its characters alone, and writing into the in-memory
/// buffer cannot fail, so the call always returns `Ok`.
#[verifier::external_body]
fn json_encode_str(s: &str) -> (encoded: String)
    ensures
        encoded@ == json_string_of(s@),
{
    serde_json::to_string(s).unwrap_or_default()
}

/// Joins the fields of the store as `key:value` lines separated by newlines.
pub fn join_fields(store: &FieldStore) -> (joined: String)
    ensures
        joined@ == joined_fields(store@),
{
    let mut out = String::new();
    let n = store.len();
    let mut i: usize = 0;
    while i < n
        invariant
            n == store@.len(),
            i <= n,
            out@ == joined_fields(store@.subrange(0, i as int)),
        decreases n - i,
    {
        if i > 0 {
            out.append("\n");
        }
        let field = store.get(i);
        out.append(field.key.as_str());
        out.append(":");
        out.append(field.value.as_str());
        proof {
            let prefix = store@.subrange(0, i as int + 1);
            assert(prefix.drop_last() =~= store@.subrange(0, i as int));
            assert(prefix.last() == store@[i as int]);
            if i == 0 {
                assert(out@ =~= field_line(store@[0]));
            }
        }
        i = i + 1;
    }
    proof {
        assert(store@.subrange(0, n as int) =~= store@);
    }
    out
}

/// Builds the request payload: `None` when there are no fields (the data
/// argument is then absent), otherwise the joined `key:value` lines encoded
/// as one JSON string value.
pub fn build_payload(store: &FieldStore) -> (payload: Option<String>)
    ensures
        payload is Some <==> store@.len() > 0,
        payload matches Some(p) ==> p@ == json_string_of(joined_fields(store@)),
{
    if store.is_empty() {
        None
    } else {
        let joined = join_fields(store);
        Some(json_encode_str(joined.as_str()))
    }
}

/// The exact argument list handed to the external tool, in order: the method
/// flag and its value, the header argument, the data argument, and the URL.
/// With no fields the header and data arguments degrade to empty text, so no
/// header or data flag reaches the tool.
pub open spec fn curl_args(method: Method, url: Seq<char>, fs: Seq<FieldView>) -> Seq<Seq<char>> {
    seq![
        "-X"@,
        method.flag_spec(),
        if fs.len() == 0 {
            ""@
        } else {
            "-H Content-Type: application/json"@
        },
        if fs.len() == 0 {
            ""@
        } else {
            "-d "@ + json_string_of(joined_fields(fs))
        },
        url,
    ]
}

/// Builds the concrete argument list for one dispatch.
pub fn build_args(method: Method, url: &str, store: &FieldStore) -> (args: Vec<String>)
    ensures
        args@.map_values(|a: String| a@) =~~= curl_args(method, url@, store@),
{
    let mut args: Vec<String> = Vec::new();
    args.push(String::from_str("-X"));
    args.push(String::from_str(method.flag()));
    match build_payload(store) {
        Some(payload) => {
            args.push(String::from_str("-H Content-Type: application/json"));
            let mut data = String::from_str("-d ");
            data.append(payload.as_str());
            args.push(data);
        }
        None => {
            args.push(String::new());
            args.push(String::new());
        }
    }
    args.push(String::from_str(url));
    proof {
        reveal_strlit("");
        assert(args@.map_values(|a: String| a@) =~~= curl_args(method, url@, store@));
    }
    args
}

/// What `String::from_utf8_lossy` yields for the given bytes: the text with
/// every invalid sequence replaced. A function of the bytes alone.
pub uninterp spec fn lossy_utf8(bytes: Seq<u8>) -> Seq<char>;

/// Relies on `String::from_utf8_lossy`: the result is determined by the
/// bytes alone — valid UTF-8 comes back unchanged, invalid sequences are
/// replaced, and the call never fails.
#[verifier::external_body]
fn decode_lossy(bytes: &Vec<u8>) -> (text: String)
    ensures
        text@ == lossy_utf8(bytes@),
{
    String::from_utf8_lossy(bytes.as_slice()).to_string()
}

/// The fixed text shown when the external tool could not be executed.
pub fn failure_message() -> (text: &'static str)
    ensures
        text@ == "Something went wrong while executing curl"@,
{
    "Something went wrong while executing curl"
}

/// Turns the outcome of one invocation of the external tool into the display
/// text: the captured standard-output bytes decoded lossily on success (the
/// tool's exit status plays no part), the fixed failure message when the
/// process could not be spawned.
pub fn interpret_output(captured: Option<Vec<u8>>) -> (out: String)
    ensures
        captured matches Some(bytes) ==> out@ == lossy_utf8(bytes@),
        captured is None ==> out@ == "Something went wrong while executing curl"@,
{
    match captured {
        Some(bytes) => decode_lossy(&bytes),
        None => String::from_str(failure_message()),
    }
}

} // verus!
