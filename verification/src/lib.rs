//! A minimal extension for an embeddable command interpreter.
//!
//! The extension registers one command, `mycmd`, with the host
//! interpreter's command table.  When a script invokes
//! `mycmd greet <widget> <message>`, the handler asks the host to
//! evaluate a follow-up script that rewrites the widget's display text:
//! `<widget> configure -text {Hello, <message>!}`.  Any other invocation
//! is accepted and silently produces no effect.
//!
//! Everything the extension decides — which command is registered,
//! whether an invocation produces a follow-up script, the script's exact
//! text, its byte length, and the status reported to the host — is
//! computed here over plain argument strings and is verified.  The FFI
//! shim around this library only decodes the host's borrowed C strings,
//! hands the decoded argument list to [`handle_command`], and performs
//! the registration and evaluation calls that the returned values
//! describe.

use vstd::prelude::*;
use vstd::string::StringExecFns;
use vstd::utf8::encode_utf8;

verus! {

/// The name under which the extension's single command is registered.
pub open spec fn command_name_spec() -> Seq<char> {
    "mycmd"@
}

/// The registered command name, `mycmd`, as an owned string for the
/// registration call.
pub fn command_name() -> (r: String)
    ensures
        r@ == command_name_spec(),
{
    "mycmd".to_owned()
}

/// The follow-up script for a recognized `greet` invocation:
/// `<widget> configure -text {Hello, <message>!}`, with the widget name
/// and the message substituted verbatim (no escaping of braces or
/// whitespace in either value).
pub open spec fn greet_script_spec(widget: Seq<char>, message: Seq<char>) -> Seq<char> {
    widget + " configure -text {Hello, "@ + message + "!}"@
}

/// Builds the follow-up script for a `greet` invocation.
pub fn greet_script(widget: &str, message: &str) -> (r: String)
    ensures
        r@ == greet_script_spec(widget@, message@),
{
    let mut script: String = widget.to_owned();
    script.append(" configure -text {Hello, ");
    script.append(message);
    script.append("!}");
    script
}

/// The number of bytes of the UTF-8 encoding of a string, as the
/// executable byte-length query reports it.
pub open spec fn byte_len(s: Seq<char>) -> usize {
    encode_utf8(s).len() as usize
}

/// The script the handler submits for evaluation, if any, as a function
/// of the decoded argument list alone.  Element 0 of `args` is always
/// the command name itself.  A script is produced exactly when argument
/// 1 is the sub-command `greet` and both a widget name (argument 2) and
/// a message (argument 3) follow it; every other invocation — no
/// sub-command, an unrecognized sub-command, or a `greet` with missing
/// arguments — is a silent no-op.
pub open spec fn handler_script(args: Seq<Seq<char>>) -> Option<Seq<char>> {
    if args.len() > 3 && args[1] == "greet"@ {
        Some(greet_script_spec(args[2], args[3]))
    } else {
        None
    }
}

/// One request to the host's script-evaluation entry point: the script
/// text, its byte length (passed explicitly, not read from a
/// terminator), and the evaluation flags.
pub struct EvalRequest {
    pub script: String,
    pub num_bytes: usize,
    pub flags: i32,
}

/// What the handler decides for one invocation: at most one evaluation
/// request, and the status reported back to the host.
pub struct HandlerOutcome {
    pub eval: Option<EvalRequest>,
    pub status: i32,
}

/// Decides one invocation of the registered command.
///
/// `args` is the full decoded argument list, element 0 being the command
/// name.  The outcome carries an evaluation request exactly when
/// [`handler_script`] produces a script for `args`; the request then
/// holds that script, its byte length, and no special flags.  The status
/// is success unconditionally: malformed or unrecognized invocations are
/// silently ignored.
pub fn handle_command(args: &Vec<String>) -> (r: HandlerOutcome)
    ensures
        r.status == 0,
        r.eval is Some <==> handler_script(args.deep_view()) is Some,
        r.eval matches Some(req) ==> {
            &&& handler_script(args.deep_view()) == Some(req.script@)
            &&& req.num_bytes == byte_len(req.script@)
            &&& req.flags == 0
        },
{
    if args.len() > 3 {
        let greet: String = "greet".to_owned();
        if args[1] == greet {
            let script = greet_script(args[2].as_str(), args[3].as_str());
            let num_bytes: usize = script.as_str().len();
            return HandlerOutcome {
                eval: Some(EvalRequest { script, num_bytes, flags: 0 }),
                status: 0,
            };
        }
    }
    HandlerOutcome { eval: None, status: 0 }
}

/// One command registration: the name that the extension binds to its
/// handler.  The host's registration call also takes a client-data
/// pointer and a deletion callback; this extension passes both as null,
/// so the name is the whole request.
pub struct Registration {
    pub name: String,
}

/// The initialization outcome: the registration requests to perform, and
/// the status reported back to the host.
pub struct InitOutcome {
    pub registrations: Vec<Registration>,
    pub status: i32,
}

/// Decides initialization: exactly one command, named `mycmd`, is
/// registered, and initialization reports success unconditionally — the
/// registration call's own status is not inspected.
pub fn init_plan() -> (r: InitOutcome)
    ensures
        r.registrations@.len() == 1,
        r.registrations@[0].name@ == command_name_spec(),
        r.status == 0,
{
    let mut registrations: Vec<Registration> = Vec::new();
    registrations.push(Registration { name: command_name() });
    InitOutcome { registrations, status: 0 }
}

/// Law: with no sub-command given (only the command name itself, or
/// nothing at all), no script is generated.
pub proof fn lemma_no_subcommand_no_script(args: Seq<Seq<char>>)
    requires
        args.len() <= 1,
    ensures
        handler_script(args) is None,
{
}

/// Law: with an unrecognized sub-command, no script is generated.
pub proof fn lemma_unrecognized_subcommand_no_script(args: Seq<Seq<char>>)
    requires
        args.len() > 1,
        args[1] != "greet"@,
    ensures
        handler_script(args) is None,
{
}

/// Law: a `greet` missing the widget name and/or the message is a
/// silent no-op — no script is generated.
pub proof fn lemma_incomplete_greet_no_script(args: Seq<Seq<char>>)
    requires
        args.len() > 1,
        args[1] == "greet"@,
        args.len() <= 3,
    ensures
        handler_script(args) is None,
{
}

/// Law: a complete `greet` invocation generates exactly the configure
/// script built from argument 2 (the widget) and argument 3 (the
/// message); any further arguments are ignored.
pub proof fn lemma_complete_greet_script(args: Seq<Seq<char>>)
    requires
        args.len() >= 4,
        args[1] == "greet"@,
    ensures
        handler_script(args) == Some(greet_script_spec(args[2], args[3])),
{
}

/// Law: the handler is stateless — the script it generates is a function
/// of the argument list alone, so two invocations with identical
/// arguments generate identical scripts.
pub proof fn lemma_handler_idempotent(
    args: Seq<Seq<char>>,
    first: Option<Seq<char>>,
    second: Option<Seq<char>>,
)
    requires
        first == handler_script(args),
        second == handler_script(args),
    ensures
        first == second,
{
}

/// Law: re-initialization is harmless — any two registration lists that
/// meet the initializer's contract bind the same single command name, so
/// loading the extension again re-registers `mycmd` and nothing else.
pub proof fn lemma_reinit_registers_same(first: Seq<Seq<char>>, second: Seq<Seq<char>>)
    requires
        first.len() == 1,
        first[0] == command_name_spec(),
        second.len() == 1,
        second[0] == command_name_spec(),
    ensures
        first == second,
{
    assert(first =~= second);
}

} // verus!

