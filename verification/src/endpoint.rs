//! The exported guest operations: the adding machine, the string smoke
//! tests, and the script-execution endpoint that compiles and runs a
//! program against a document.

use crate::arena::{Arena, read_bytes, write_bytes};
use crate::codec::{self, CodecError};
use crate::engine::{
    compile_failure_messages, compile_program, diagnostic_message_list, diagnostic_messages,
    format_diagnostics, format_diagnostics_colored, is_request_envelope, json_of,
    parse_request_parts, rendered_diagnostics, rendered_diagnostics_colored, request_program,
    run_program, terminate_diagnostics, termination_message, value_to_json, vrl_compiles,
};
use crate::envelope::{self, diagnostic_envelope, is_diagnostic_envelope, is_success_envelope};
use vstd::prelude::*;
use vstd::string::StringExecFns;
use vstd::utf8::{decode_utf8, encode_utf8, valid_utf8};

verus! {

/// A script-execution request: the program's source text and the document
/// it runs against.
pub struct Input {
    pub program: String,
    pub event: vrl::value::Value,
}

impl Input {
    /// A request from a program source and an input document.
    pub fn new(program: &str, event: vrl::value::Value) -> (r: Self)
        ensures
            r.program@ == program@,
            r.event == event,
    {
        Input { program: program.to_owned(), event }
    }
}

/// The answer to a successful run: the value of the script's last
/// expression, and the document that results from applying the program.
pub struct VrlCompileResult {
    pub output: vrl::value::Value,
    pub result: vrl::value::Value,
}

impl VrlCompileResult {
    fn new(output: vrl::value::Value, result: vrl::value::Value) -> (r: Self)
        ensures
            r.output == output,
            r.result == result,
    {
        VrlCompileResult { output, result }
    }
}

/// The answer when compilation or execution fails: one message per
/// diagnostic, and a full source-annotated rendering of all of them, plain
/// and colorized.
pub struct VrlDiagnosticResult {
    pub list: Vec<String>,
    pub msg: String,
    pub msg_colorized: String,
}

impl VrlDiagnosticResult {
    /// Wraps the diagnostics of a failed compilation: the messages in
    /// order, and the formatter's two renderings.
    fn new(program: &str, diagnostic_list: vrl::diagnostic::DiagnosticList) -> (r: Self)
        ensures
            r.list.deep_view() == diagnostic_messages(diagnostic_list),
            r.msg@ == rendered_diagnostics(program@, diagnostic_list),
            r.msg_colorized@ == rendered_diagnostics_colored(program@, diagnostic_list),
    {
        let list = diagnostic_message_list(&diagnostic_list);
        let msg = format_diagnostics(program, &diagnostic_list);
        let msg_colorized = format_diagnostics_colored(program, &diagnostic_list);
        VrlDiagnosticResult { list, msg, msg_colorized }
    }

    /// Wraps a runtime termination. The message list is left empty — the
    /// fault wraps to a capacity of one with no entry stored — while the
    /// two renderings carry the termination's one diagnostic.
    fn new_runtime_error(program: &str, terminate: vrl::compiler::runtime::Terminate) -> (r: Self)
        ensures
            r.list.deep_view().len() == 0,
            exists|dl: vrl::diagnostic::DiagnosticList|
                {
                    &&& #[trigger] diagnostic_messages(dl) == seq![termination_message(terminate)]
                    &&& r.msg@ == rendered_diagnostics(program@, dl)
                    &&& r.msg_colorized@ == rendered_diagnostics_colored(program@, dl)
                },
    {
        let diagnostics = terminate_diagnostics(terminate);
        let msg = format_diagnostics(program, &diagnostics);
        let msg_colorized = format_diagnostics_colored(program, &diagnostics);
        VrlDiagnosticResult { list: Vec::new(), msg, msg_colorized }
    }
}

/// Compiles the request's program — against the standard built-in function
/// set, less its network-access functions — and runs it against the
/// request's event. A compile failure hands back that compilation's
/// messages and renderings; a runtime termination hands back a rendering of
/// the one faulting expression with an empty message list.
pub fn compile(input: Input) -> (r: Result<VrlCompileResult, VrlDiagnosticResult>)
    ensures
        r is Ok ==> vrl_compiles(input.program@),
        !vrl_compiles(input.program@) ==> (r matches Err(d) && d.list.deep_view()
            == compile_failure_messages(input.program@) && d.list.deep_view().len() >= 1),
        vrl_compiles(input.program@) ==> (r matches Err(d) ==> d.list.deep_view().len() == 0),
        r matches Err(d) ==> exists|dl: vrl::diagnostic::DiagnosticList|
            {
                &&& d.msg@ == #[trigger] rendered_diagnostics(input.program@, dl)
                &&& d.msg_colorized@ == rendered_diagnostics_colored(input.program@, dl)
                &&& if vrl_compiles(input.program@) {
                    diagnostic_messages(dl).len() == 1
                } else {
                    diagnostic_messages(dl) == compile_failure_messages(input.program@)
                }
            },
{
    let Input { program: source, event } = input;
    let program = match compile_program(source.as_str()) {
        Ok(p) => p,
        Err(diagnostics) => {
            return Err(VrlDiagnosticResult::new(source.as_str(), diagnostics));
        },
    };
    match run_program(&program, event) {
        Ok((output, result)) => Ok(VrlCompileResult::new(output, result)),
        Err(terminate) => Err(VrlDiagnosticResult::new_runtime_error(source.as_str(), terminate)),
    }
}

/// Parses the request envelope: a JSON object with a string field `program`
/// and a document field `event`. Succeeds exactly on such texts, and hands
/// back the named program.
pub fn parse_request(text: &str) -> (r: Option<Input>)
    ensures
        r is Some <==> is_request_envelope(text@),
        r matches Some(i) ==> i.program@ == request_program(text@),
{
    match parse_request_parts(text) {
        Some((program, event)) => Some(Input { program, event }),
        None => None,
    }
}

/// The response to a failed run, as JSON text.
fn render_diagnostic(diag: &VrlDiagnosticResult) -> (r: String)
    ensures
        r@ == diagnostic_envelope(diag.list.deep_view(), diag.msg@, diag.msg_colorized@),
        is_diagnostic_envelope(r@),
{
    envelope::diagnostic_text(&diag.list, diag.msg.as_str(), diag.msg_colorized.as_str())
}

/// The response to a successful run: the success envelope holding the two
/// documents' serializations. Fails exactly when the engine cannot
/// serialize one of them.
fn render_success(res: &VrlCompileResult) -> (r: Option<String>)
    ensures
        r is Some <==> json_of(res.output) is Some && json_of(res.result) is Some,
        r matches Some(s) ==> (json_of(res.output) matches Some(output_json) && (json_of(
            res.result,
        ) matches Some(result_json) && s@ == envelope::success_envelope(output_json, result_json))),
        r matches Some(s) ==> is_success_envelope(s@),
{
    let output_json = match value_to_json(&res.output) {
        Some(s) => s,
        None => {
            return None;
        },
    };
    let result_json = match value_to_json(&res.result) {
        Some(s) => s,
        None => {
            return None;
        },
    };
    Some(envelope::success_text(output_json.as_str(), result_json.as_str()))
}

/// The ways the script-execution endpoint can fail without producing a
/// response envelope.
#[derive(Clone, Copy, PartialEq, Eq, Structural, Debug)]
pub enum ScriptError {
    /// Decoding the request region failed.
    Codec(CodecError),
    /// The request is not a JSON object with a string `program` field and
    /// an `event` field.
    MalformedRequest,
    /// The engine could not serialize the run's result to JSON.
    SerializeFailed,
    /// The response envelope does not fit in the request's buffer.
    ResponseTooLarge,
}

/// The text that the `len` bytes at offset `ptr` of memory `m` decode to.
pub open spec fn request_text(m: Seq<u8>, ptr: int, len: int) -> Seq<char> {
    decode_utf8(read_bytes(m, ptr, len))
}

/// The diagnostic envelope with which the endpoint answers a program that
/// fails to compile: that compilation's messages listed, and the
/// formatter's renderings of its diagnostic list `dl`.
pub open spec fn compile_failure_response(
    program: Seq<char>,
    dl: vrl::diagnostic::DiagnosticList,
) -> Seq<char> {
    diagnostic_envelope(
        compile_failure_messages(program),
        rendered_diagnostics(program, dl),
        rendered_diagnostics_colored(program, dl),
    )
}

/// The diagnostic envelope with which the endpoint answers a runtime
/// fault: an empty message list, and the formatter's renderings of the
/// fault's one-diagnostic list `dl`.
pub open spec fn runtime_failure_response(
    program: Seq<char>,
    dl: vrl::diagnostic::DiagnosticList,
) -> Seq<char> {
    diagnostic_envelope(
        Seq::empty(),
        rendered_diagnostics(program, dl),
        rendered_diagnostics_colored(program, dl),
    )
}

/// The script-execution endpoint. Decodes the request envelope at
/// (`ptr`, `len`), compiles — against the standard built-in function set,
/// less its network-access functions — and runs its program against its
/// event, overwrites the same buffer with the response envelope, and
/// returns the response's byte length. A failed compilation writes its own
/// diagnostics' envelope; a runtime fault writes one with an empty list.
/// The request bytes are destroyed by the response.
pub fn run_vrl(arena: &mut Arena, ptr: u32, len: u32) -> (r: Result<u32, ScriptError>)
    requires
        old(arena).wf(),
    ensures
        final(arena).wf(),
        final(arena).mem_size() == old(arena).mem_size(),
        final(arena).live_allocs() == old(arena).live_allocs(),
        final(arena).bump() == old(arena).bump(),
        r is Ok ==> old(arena).region_live(ptr, len as nat) && valid_utf8(
            read_bytes(old(arena).contents(), ptr as int, len as int),
        ) && is_request_envelope(request_text(old(arena).contents(), ptr as int, len as int)),
        r matches Ok(n) ==> exists|resp: Seq<char>|
            {
                &&& if vrl_compiles(
                    request_program(request_text(old(arena).contents(), ptr as int, len as int)),
                ) {
                    is_success_envelope(resp) || (exists|dl: vrl::diagnostic::DiagnosticList|
                        (#[trigger] diagnostic_messages(dl)).len() == 1 && resp
                            == runtime_failure_response(
                            request_program(
                                request_text(old(arena).contents(), ptr as int, len as int),
                            ),
                            dl,
                        ))
                } else {
                    exists|dl: vrl::diagnostic::DiagnosticList|
                        #[trigger] diagnostic_messages(dl) == compile_failure_messages(
                            request_program(
                                request_text(old(arena).contents(), ptr as int, len as int),
                            ),
                        ) && resp == compile_failure_response(
                            request_program(
                                request_text(old(arena).contents(), ptr as int, len as int),
                            ),
                            dl,
                        )
                }
                &&& old(arena).region_live(ptr, (#[trigger] encode_utf8(resp)).len())
                &&& n == encode_utf8(resp).len()
                &&& final(arena).contents() == write_bytes(
                    old(arena).contents(),
                    ptr as int,
                    encode_utf8(resp),
                )
            },
        ({
            &&& old(arena).region_live(ptr, len as nat)
            &&& valid_utf8(read_bytes(old(arena).contents(), ptr as int, len as int))
            &&& is_request_envelope(request_text(old(arena).contents(), ptr as int, len as int))
            &&& !vrl_compiles(
                request_program(request_text(old(arena).contents(), ptr as int, len as int)),
            )
        }) ==> exists|dl: vrl::diagnostic::DiagnosticList|
            {
                let resp = compile_failure_response(
                    request_program(request_text(old(arena).contents(), ptr as int, len as int)),
                    dl,
                );
                &&& #[trigger] diagnostic_messages(dl) == compile_failure_messages(
                    request_program(request_text(old(arena).contents(), ptr as int, len as int)),
                )
                &&& if old(arena).region_live(ptr, encode_utf8(resp).len()) {
                    r matches Ok(n) && n == encode_utf8(resp).len() && final(arena).contents()
                        == write_bytes(old(arena).contents(), ptr as int, encode_utf8(resp))
                } else {
                    r == Err::<u32, ScriptError>(ScriptError::ResponseTooLarge)
                }
            },
        r is Err ==> final(arena).contents() == old(arena).contents(),
        r == Err::<u32, ScriptError>(ScriptError::Codec(CodecError::NoSuchAllocation)) <==> !old(
            arena,
        ).ptr_live(ptr),
        r == Err::<u32, ScriptError>(ScriptError::Codec(CodecError::CapacityExceeded)) <==> old(
            arena,
        ).ptr_live(ptr) && !old(arena).region_live(ptr, len as nat),
        r == Err::<u32, ScriptError>(ScriptError::Codec(CodecError::InvalidUtf8)) <==> old(
            arena,
        ).region_live(ptr, len as nat) && !valid_utf8(
            read_bytes(old(arena).contents(), ptr as int, len as int),
        ),
        r == Err::<u32, ScriptError>(ScriptError::MalformedRequest) <==> old(arena).region_live(
            ptr,
            len as nat,
        ) && valid_utf8(read_bytes(old(arena).contents(), ptr as int, len as int))
            && !is_request_envelope(
            request_text(old(arena).contents(), ptr as int, len as int),
        ),
        r == Err::<u32, ScriptError>(ScriptError::SerializeFailed) ==> is_request_envelope(
            request_text(old(arena).contents(), ptr as int, len as int),
        ) && vrl_compiles(
            request_program(request_text(old(arena).contents(), ptr as int, len as int)),
        ),
        r == Err::<u32, ScriptError>(ScriptError::ResponseTooLarge) ==> is_request_envelope(
            request_text(old(arena).contents(), ptr as int, len as int),
        ),
{
    let text = match codec::decode(arena, ptr, len) {
        Ok(t) => t,
        Err(e) => {
            return Err(ScriptError::Codec(e));
        },
    };
    let input = match parse_request(text.as_str()) {
        Some(i) => i,
        None => {
            return Err(ScriptError::MalformedRequest);
        },
    };
    let ghost prog = input.program@;
    let response = match compile(input) {
        Ok(res) => match render_success(&res) {
            Some(s) => s,
            None => {
                return Err(ScriptError::SerializeFailed);
            },
        },
        Err(diag) => {
            let rendered = render_diagnostic(&diag);
            proof {
                if vrl_compiles(prog) {
                    assert(diag.list.deep_view() =~= Seq::<Seq<char>>::empty());
                    assert(exists|dl: vrl::diagnostic::DiagnosticList|
                        (#[trigger] diagnostic_messages(dl)).len() == 1 && rendered@
                            == runtime_failure_response(prog, dl));
                } else {
                    assert(exists|dl: vrl::diagnostic::DiagnosticList|
                        #[trigger] diagnostic_messages(dl) == compile_failure_messages(prog)
                            && rendered@ == compile_failure_response(prog, dl));
                }
            }
            rendered
        },
    };
    match codec::encode_into(arena, response.as_str(), ptr) {
        Ok(n) => Ok(n),
        Err(_) => Err(ScriptError::ResponseTooLarge),
    }
}

/// The identity smoke test: returns the offset just past the input region.
pub fn echo_string(ptr: u32, len: u32) -> (r: u32)
    requires
        ptr + len <= u32::MAX,
    ensures
        r == ptr + len,
{
    ptr + len
}

/// Decodes the region as text and returns its byte length — the input
/// length, unchanged.
pub fn read_string(arena: &Arena, ptr: u32, len: u32) -> (r: Result<u32, CodecError>)
    requires
        arena.wf(),
    ensures
        r is Ok <==> arena.region_live(ptr, len as nat) && valid_utf8(
            read_bytes(arena.contents(), ptr as int, len as int),
        ),
        r matches Ok(n) ==> n == len,
        r == Err::<u32, CodecError>(CodecError::NoSuchAllocation) <==> !arena.ptr_live(ptr),
        r == Err::<u32, CodecError>(CodecError::CapacityExceeded) <==> arena.ptr_live(ptr)
            && !arena.region_live(ptr, len as nat),
        r == Err::<u32, CodecError>(CodecError::InvalidUtf8) <==> arena.region_live(ptr, len as nat)
            && !valid_utf8(read_bytes(arena.contents(), ptr as int, len as int)),
{
    match codec::decode(arena, ptr, len) {
        Ok(_) => Ok(len),
        Err(e) => Err(e),
    }
}

/// The reply that `return_string` writes back: a greeting that embeds the
/// decoded input.
pub open spec fn derived_reply(s: Seq<char>) -> Seq<char> {
    "Incoming: "@ + s + "\nThis string was written from adding-machine/src/lib.rs"@
}

/// Decodes the region as text, overwrites the buffer with a derived reply
/// that embeds that text, and returns the reply's byte length.
pub fn return_string(arena: &mut Arena, ptr: u32, len: u32) -> (r: Result<u32, CodecError>)
    requires
        old(arena).wf(),
    ensures
        final(arena).wf(),
        final(arena).mem_size() == old(arena).mem_size(),
        final(arena).live_allocs() == old(arena).live_allocs(),
        final(arena).bump() == old(arena).bump(),
        r matches Ok(n) ==> ({
            let reply = derived_reply(
                decode_utf8(read_bytes(old(arena).contents(), ptr as int, len as int)),
            );
            &&& n == encode_utf8(reply).len()
            &&& final(arena).contents() == write_bytes(
                old(arena).contents(),
                ptr as int,
                encode_utf8(reply),
            )
        }),
        r is Ok <==> old(arena).region_live(ptr, len as nat) && valid_utf8(
            read_bytes(old(arena).contents(), ptr as int, len as int),
        ) && old(arena).region_live(
            ptr,
            encode_utf8(
                derived_reply(
                    decode_utf8(read_bytes(old(arena).contents(), ptr as int, len as int)),
                ),
            ).len(),
        ),
        r is Err ==> final(arena).contents() == old(arena).contents(),
{
    let text = match codec::decode(arena, ptr, len) {
        Ok(t) => t,
        Err(e) => {
            return Err(e);
        },
    };
    let mut reply = String::new();
    reply.append("Incoming: ");
    reply.append(text.as_str());
    reply.append("\nThis string was written from adding-machine/src/lib.rs");
    proof {
        assert(reply@ =~= derived_reply(text@));
    }
    match codec::encode_into(arena, reply.as_str(), ptr) {
        Ok(n) => Ok(n),
        Err(e) => Err(e),
    }
}

/// The adding machine: the sum of two machine words, wrapping at the
/// integer width.
pub fn add(left: usize, right: usize) -> (r: usize)
    ensures
        r == if left + right <= usize::MAX {
            left + right
        } else {
            left + right - (usize::MAX + 1)
        },
{
    if right <= usize::MAX - left {
        left + right
    } else {
        left - (usize::MAX - right) - 1
    }
}

} // verus!
