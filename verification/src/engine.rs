//! The trusted boundary to the script engine and the JSON serializer.
//!
//! Each function here wraps a call into the script-engine crate or the JSON
//! crate; Verus believes the stated contract and does not look at the body.
//! The contracts say no more than those crates' sources show.

use vstd::prelude::*;

verus! {

#[verifier::external_type_specification]
#[verifier::external_body]
pub struct ExValue(vrl::value::Value);

#[verifier::external_type_specification]
#[verifier::external_body]
pub struct ExProgram(vrl::compiler::Program);

#[verifier::external_type_specification]
#[verifier::external_body]
pub struct ExDiagnostic(vrl::diagnostic::Diagnostic);

#[verifier::external_type_specification]
#[verifier::external_body]
pub struct ExDiagnosticList(vrl::diagnostic::DiagnosticList);

#[verifier::external_type_specification]
#[verifier::external_body]
pub struct ExTerminate(vrl::compiler::runtime::Terminate);

/// Whether the script engine compiles this source text against the built-in
/// function set this crate hands it — the standard library, without its
/// three network-access functions: a property of the text alone.
pub uninterp spec fn vrl_compiles(source: Seq<char>) -> bool;

/// The message of each diagnostic with which compilation of this source
/// text fails: for the fixed function set, a property of the text alone.
pub uninterp spec fn compile_failure_messages(source: Seq<char>) -> Seq<Seq<char>>;

/// The message of each diagnostic in a diagnostic list, in order.
pub uninterp spec fn diagnostic_messages(list: vrl::diagnostic::DiagnosticList) -> Seq<Seq<char>>;

/// The formatter's plain rendering of a diagnostic list against a source
/// text: a function of the two alone.
pub uninterp spec fn rendered_diagnostics(
    source: Seq<char>,
    list: vrl::diagnostic::DiagnosticList,
) -> Seq<char>;

/// The formatter's rendering with ANSI color codes: a function of the
/// source text and the diagnostic list alone.
pub uninterp spec fn rendered_diagnostics_colored(
    source: Seq<char>,
    list: vrl::diagnostic::DiagnosticList,
) -> Seq<char>;

/// The message of the one diagnostic a runtime termination carries: the
/// faulting expression's error, a function of the termination alone.
pub uninterp spec fn termination_message(terminate: vrl::compiler::runtime::Terminate) -> Seq<
    char,
>;

/// The JSON text that the serializer produces for a document, when it
/// accepts it: a function of the document alone.
pub uninterp spec fn json_of(value: vrl::value::Value) -> Option<Seq<char>>;

/// Whether a text is a request envelope: JSON whose document is an object
/// with a string field `program` and a field `event`. A property of the
/// text alone.
pub uninterp spec fn is_request_envelope(text: Seq<char>) -> bool;

/// The `program` field of a request envelope's text.
pub uninterp spec fn request_program(text: Seq<char>) -> Seq<char>;

/// Relies on vrl::compiler::compile, handing it the standard built-in
/// function set (vrl's stdlib, without its three network-access functions,
/// which this build leaves out): for that fixed set, whether a source
/// compiles — and with which diagnostic messages it fails — depends on the
/// text alone, and a failed compilation carries at least one diagnostic.
#[verifier::external_body]
pub(crate) fn compile_program(source: &str) -> (r: Result<
    vrl::compiler::Program,
    vrl::diagnostic::DiagnosticList,
>)
    ensures
        r is Ok <==> vrl_compiles(source@),
        r matches Err(diagnostics) ==> diagnostic_messages(diagnostics) == compile_failure_messages(
            source@,
        ) && diagnostic_messages(diagnostics).len() >= 1,
{
    match vrl::compiler::compile(source, &vrl::stdlib::all()) {
        Ok(result) => Ok(result.program),
        Err(diagnostics) => Err(diagnostics),
    }
}

/// Relies on vrl's Runtime::resolve, against a target made of the event, an
/// empty metadata object and an empty secret store, under the default time
/// zone: it yields the final expression's value and the resulting document,
/// or a termination signal.
#[verifier::external_body]
pub(crate) fn run_program(program: &vrl::compiler::Program, event: vrl::value::Value) -> (r:
    Result<(vrl::value::Value, vrl::value::Value), vrl::compiler::runtime::Terminate>)
{
    let mut target = vrl::compiler::TargetValue {
        value: event,
        metadata: vrl::value::Value::Object(vrl::value::ObjectMap::new()),
        secrets: vrl::value::Secrets::new(),
    };
    let mut runtime = vrl::compiler::runtime::Runtime::default();
    let timezone = vrl::compiler::TimeZone::default();
    match runtime.resolve(&mut target, program, &timezone) {
        Ok(output) => Ok((output, target.value)),
        Err(terminate) => Err(terminate),
    }
}

/// Relies on vrl's diagnostic Formatter: renders the diagnostics against
/// the source, without color, into an in-memory buffer — a function of the
/// two inputs alone.
#[verifier::external_body]
pub(crate) fn format_diagnostics(source: &str, diagnostics: &vrl::diagnostic::DiagnosticList) -> (r:
    String)
    ensures
        r@ == rendered_diagnostics(source@, *diagnostics),
{
    vrl::diagnostic::Formatter::new(source, diagnostics.clone()).to_string()
}

/// Relies on vrl's diagnostic Formatter: the same rendering, with ANSI
/// color codes.
#[verifier::external_body]
pub(crate) fn format_diagnostics_colored(
    source: &str,
    diagnostics: &vrl::diagnostic::DiagnosticList,
) -> (r: String)
    ensures
        r@ == rendered_diagnostics_colored(source@, *diagnostics),
{
    vrl::diagnostic::Formatter::new(source, diagnostics.clone()).colored().to_string()
}

/// Relies on DiagnosticList's iterator and Diagnostic::message: hands out
/// the message of each diagnostic, in order.
#[verifier::external_body]
pub(crate) fn diagnostic_message_list(diagnostics: &vrl::diagnostic::DiagnosticList) -> (r: Vec<
    String,
>)
    ensures
        r.deep_view() == diagnostic_messages(*diagnostics),
{
    let mut out = Vec::new();
    for diagnostic in diagnostics.iter() {
        out.push(diagnostic.message().to_string());
    }
    out
}

/// Relies on Terminate::get_expression_error: a runtime termination carries
/// exactly one diagnostic — the faulting expression's error, whose message
/// is a function of the termination alone.
#[verifier::external_body]
pub(crate) fn terminate_diagnostics(terminate: vrl::compiler::runtime::Terminate) -> (r:
    vrl::diagnostic::DiagnosticList)
    ensures
        diagnostic_messages(r) == seq![termination_message(terminate)],
{
    vrl::diagnostic::DiagnosticList::from(terminate.get_expression_error())
}

/// Relies on serde_json::from_str for vrl's document type, Value::as_object,
/// the object map's get, and Value::as_str, which together read the request
/// envelope: whether the text is one, and which program it names, are
/// properties of the text alone.
#[verifier::external_body]
pub(crate) fn parse_request_parts(text: &str) -> (r: Option<(String, vrl::value::Value)>)
    ensures
        r is Some <==> is_request_envelope(text@),
        r matches Some(parts) ==> parts.0@ == request_program(text@),
{
    let document: vrl::value::Value = serde_json::from_str(text).ok()?;
    let map = document.as_object()?;
    let program = map.get("program")?.as_str()?.into_owned();
    let event = map.get("event")?.clone();
    Some((program, event))
}

/// Relies on serde_json::to_string for vrl's document type: whether it
/// succeeds, and with which text, is a function of the document alone.
#[verifier::external_body]
pub(crate) fn value_to_json(value: &vrl::value::Value) -> (r: Option<String>)
    ensures
        r is Some <==> json_of(*value) is Some,
        r matches Some(s) ==> json_of(*value) == Some(s@),
{
    serde_json::to_string(value).ok()
}

} // verus!
