//! The application state and its single-threaded event step. The interface
//! layer turns each user interaction into a `UiEvent` and feeds it to
//! `step`; a dispatch event yields the argument list for the external tool,
//! and the captured outcome is folded back in by `complete_dispatch`.

use vstd::prelude::*;
use crate::fields::{empty_field, apply_op, FieldStore, StoreOp};
use crate::request::{build_args, curl_args, interpret_output, lossy_utf8, Method};
use vstd::string::StringExecFns;

verus! {

/// All mutable state of the application: the chosen method, the target URL,
/// the editable fields, and the single output buffer. The buffer always
/// holds the placeholder, the last captured output, or the fixed failure
/// message — never a partial result.
pub struct AppState {
    pub method: Method,
    pub url: String,
    pub fields: FieldStore,
    pub output: String,
}

impl AppState {
    /// The state at launch: method GET, a localhost URL, no fields, and the
    /// placeholder in the output buffer.
    pub fn new() -> (state: AppState)
        ensures
            state.method == Method::Get,
            state.url@ == "http://localhost:8080"@,
            state.fields@ =~= Seq::<crate::fields::FieldView>::empty(),
            state.output@ == "No output yet!"@,
    {
        AppState {
            method: Method::Get,
            url: String::from_str("http://localhost:8080"),
            fields: FieldStore::new(),
            output: String::from_str("No output yet!"),
        }
    }
}

/// One user interaction, as the interface reports it. Editing events carry
/// the new text; a removal carries the index recorded during the frame (at
/// most one per frame); a dispatch asks for the request to be issued.
pub enum UiEvent {
    AddField { multiline: bool },
    SetMethod { method: Method },
    SetUrl { url: String },
    SetKey { index: usize, key: String },
    SetValue { index: usize, value: String },
    RemoveField { pending: Option<usize> },
    Dispatch,
}

/// Applies one user interaction to the state. Only a dispatch yields a
/// command: the full argument list for the external tool. Editing events at
/// an out-of-range index leave the state untouched. No event touches the
/// output buffer; that happens only in `complete_dispatch`.
pub fn step(state: &mut AppState, event: UiEvent) -> (command: Option<Vec<String>>)
    ensures
        command is Some <==> event is Dispatch,
        match event {
            UiEvent::AddField { multiline } => final(state).fields@
                =~= old(state).fields@.push(empty_field(multiline))
                && final(state).method == old(state).method
                && final(state).url@ == old(state).url@
                && final(state).output@ == old(state).output@,
            UiEvent::SetMethod { method } => final(state).method == method
                && final(state).fields@ =~= old(state).fields@
                && final(state).url@ == old(state).url@
                && final(state).output@ == old(state).output@,
            UiEvent::SetUrl { url } => final(state).url@ == url@
                && final(state).method == old(state).method
                && final(state).fields@ =~= old(state).fields@
                && final(state).output@ == old(state).output@,
            UiEvent::SetKey { index, key } => final(state).method == old(state).method
                && final(state).url@ == old(state).url@
                && final(state).output@ == old(state).output@
                && final(state).fields@.len() == old(state).fields@.len()
                && (index < old(state).fields@.len() ==> final(state).fields@[index as int].key
                    == key@
                    && final(state).fields@[index as int].value
                        == old(state).fields@[index as int].value
                    && final(state).fields@[index as int].multiline
                        == old(state).fields@[index as int].multiline
                    && (forall|i: int| 0 <= i < old(state).fields@.len() && i != index
                        ==> final(state).fields@[i] == old(state).fields@[i]))
                && (index >= old(state).fields@.len() ==> final(state).fields@
                    =~= old(state).fields@),
            UiEvent::SetValue { index, value } => final(state).method == old(state).method
                && final(state).url@ == old(state).url@
                && final(state).output@ == old(state).output@
                && final(state).fields@.len() == old(state).fields@.len()
                && (index < old(state).fields@.len() ==> final(state).fields@[index as int].value
                    == value@
                    && final(state).fields@[index as int].key
                        == old(state).fields@[index as int].key
                    && final(state).fields@[index as int].multiline
                        == old(state).fields@[index as int].multiline
                    && (forall|i: int| 0 <= i < old(state).fields@.len() && i != index
                        ==> final(state).fields@[i] == old(state).fields@[i]))
                && (index >= old(state).fields@.len() ==> final(state).fields@
                    =~= old(state).fields@),
            UiEvent::RemoveField { pending } => final(state).method == old(state).method
                && final(state).url@ == old(state).url@
                && final(state).output@ == old(state).output@
                && final(state).fields@ =~= (match pending {
                    Some(index) => apply_op(old(state).fields@, StoreOp::Remove { index }),
                    None => old(state).fields@,
                }),
            UiEvent::Dispatch => *final(state) == *old(state)
                && (command matches Some(args) ==> args@.map_values(|a: String| a@)
                    =~~= curl_args(old(state).method, old(state).url@, old(state).fields@)),
        },
{
    match event {
        UiEvent::AddField { multiline } => {
            state.fields.add(multiline);
            None
        }
        UiEvent::SetMethod { method } => {
            state.method = method;
            None
        }
        UiEvent::SetUrl { url } => {
            state.url = url;
            None
        }
        UiEvent::SetKey { index, key } => {
            if index < state.fields.len() {
                state.fields.update(index, Some(key), None);
            }
            None
        }
        UiEvent::SetValue { index, value } => {
            if index < state.fields.len() {
                state.fields.update(index, None, Some(value));
            }
            None
        }
        UiEvent::RemoveField { pending } => {
            state.fields.remove_pending(pending);
            None
        }
        UiEvent::Dispatch => Some(build_args(state.method, state.url.as_str(), &state.fields)),
    }
}

/// Folds the outcome of the external tool back into the state: the captured
/// standard-output bytes replace the output buffer (decoded lossily), or the
/// fixed failure message does when the process could not be spawned. Nothing
/// else changes.
pub fn complete_dispatch(state: &mut AppState, captured: Option<Vec<u8>>)
    ensures
        final(state).method == old(state).method,
        final(state).url@ == old(state).url@,
        final(state).fields@ =~= old(state).fields@,
        captured matches Some(bytes) ==> final(state).output@ == lossy_utf8(bytes@),
        captured is None ==> final(state).output@
            == "Something went wrong while executing curl"@,
{
    state.output = interpret_output(captured);
}

} // verus!
