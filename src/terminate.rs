//! The guarded termination of instances: which of dry run, confirmation and
//! execution a run goes through, and where the instance ids come from.
//!
//! The caller performs each action (asks the operator, calls the provider)
//! and hands the outcome back.
use vstd::prelude::*;
use crate::dispatch::{ModuleError, ModuleErrorKind};

verus! {

/// The formats that results can be rendered in.
#[derive(Debug, Clone, Copy, PartialEq, Eq)]
pub enum OutputType {
    Human,
    Json,
    Plain,
}

/// The output type that a command-line value names.
pub open spec fn output_type_named(s: Seq<char>) -> Option<OutputType> {
    if s == "human"@ {
        Some(OutputType::Human)
    } else if s == "json"@ {
        Some(OutputType::Json)
    } else if s == "plain"@ {
        Some(OutputType::Plain)
    } else {
        None
    }
}

/// Parses an output type from its command-line value.
pub fn parse_output_type(s: &str) -> (r: Option<OutputType>)
    ensures
        r == output_type_named(s@),
{
    proof {
        reveal_strlit("human");
        reveal_strlit("json");
        reveal_strlit("plain");
    }
    let v = s.to_owned();
    if v == "human".to_owned() {
        Some(OutputType::Human)
    } else if v == "json".to_owned() {
        Some(OutputType::Json)
    } else if v == "plain".to_owned() {
        Some(OutputType::Plain)
    } else {
        None
    }
}

/// The module's command name.
pub open spec fn terminate_name() -> Seq<char> {
    "terminate"@
}

fn terminate_failed() -> (r: ModuleError)
    ensures
        r.kind is ModuleFailed,
        r.kind->ModuleFailed_0@ == terminate_name(),
        r.cause is None,
{
    proof {
        reveal_strlit("terminate");
    }
    ModuleError::from_kind(ModuleErrorKind::ModuleFailed("terminate".to_owned()))
}

/// The output type that termination results are rendered in: plain text is
/// not offered for them, and fails the module.
pub fn terminate_output_type(t: OutputType) -> (r: Result<OutputType, ModuleError>)
    ensures
        t is Plain ==> r is Err && r->Err_0.kind is ModuleFailed
            && r->Err_0.kind->ModuleFailed_0@ == terminate_name(),
        !(t is Plain) ==> r == Ok::<OutputType, ModuleError>(t),
{
    match t {
        OutputType::Plain => Err(terminate_failed()),
        _ => Ok(t),
    }
}

/// The text that the operator is asked to confirm with.
pub fn confirmation_answer() -> (r: String)
    ensures
        r@ == "yes"@,
{
    proof {
        reveal_strlit("yes");
    }
    "yes".to_owned()
}

/// The question put to the operator before instances are terminated.
pub fn confirmation_prompt() -> (r: String)
    ensures
        r@ == "Going to terminate instances. Please type 'yes' to continue: "@,
{
    proof {
        reveal_strlit("Going to terminate instances. Please type 'yes' to continue: ");
    }
    "Going to terminate instances. Please type 'yes' to continue: ".to_owned()
}

/// What a termination run does next.
#[derive(Debug)]
pub enum TerminateAction {
    /// Ask the operator to confirm, then step again with the answer.
    Prompt,
    /// Call the provider to terminate the instances, in dry mode or not.
    Execute { dry: bool },
    /// Stop with this failure; nothing is terminated.
    Abort(ModuleError),
}

/// The next action of a termination run. `has_provider` says whether the
/// active profile configures a provider; `answer` is the operator's answer,
/// `true` for the accepted text, where one was asked for. A dry run needs no
/// confirmation, nor does one with `yes`; otherwise the operator is asked,
/// and any answer but the accepted one aborts the run.
pub fn terminate_step(has_provider: bool, dry: bool, yes: bool, answer: Option<bool>) -> (r: TerminateAction)
    ensures
        !has_provider ==> r is Abort && r->Abort_0.kind is ConfigMissingInProfile
            && r->Abort_0.kind->ConfigMissingInProfile_0@ == "provider"@,
        has_provider && dry ==> r == (TerminateAction::Execute { dry: true }),
        has_provider && !dry && yes ==> r == (TerminateAction::Execute { dry: false }),
        has_provider && !dry && !yes && answer is None ==> r is Prompt,
        has_provider && !dry && !yes && answer == Some(true) ==> r == (TerminateAction::Execute { dry: false }),
        has_provider && !dry && !yes && answer == Some(false) ==> r is Abort
            && r->Abort_0.kind is ModuleFailed
            && r->Abort_0.kind->ModuleFailed_0@ == terminate_name(),
        dry ==> !(r is Prompt),
        r is Execute && !r->dry ==> !dry && (yes || answer == Some(true)),
{
    proof {
        reveal_strlit("provider");
    }
    if !has_provider {
        return TerminateAction::Abort(
            ModuleError::from_kind(ModuleErrorKind::ConfigMissingInProfile("provider".to_owned())),
        );
    }
    if dry {
        TerminateAction::Execute { dry: true }
    } else if yes {
        TerminateAction::Execute { dry: false }
    } else {
        match answer {
            None => TerminateAction::Prompt,
            Some(true) => TerminateAction::Execute { dry: false },
            Some(false) => TerminateAction::Abort(terminate_failed()),
        }
    }
}

/// Where the ids of the instances to terminate come from.
#[derive(Debug)]
pub enum IdSource {
    /// A structured list on standard input.
    Stdin,
    /// The positional arguments themselves.
    Args(Vec<String>),
}

/// The source of the instance ids: standard input where the one argument is
/// `-`, else the arguments as given (an empty list included).
pub fn instance_id_source(args: Vec<String>) -> (r: IdSource)
    ensures
        args@.len() == 1 && args@[0]@ == "-"@ ==> r is Stdin,
        !(args@.len() == 1 && args@[0]@ == "-"@) ==> r is Args && r->Args_0 == args,
{
    proof {
        reveal_strlit("-");
    }
    if args.len() == 1 && args[0] == "-".to_owned() {
        IdSource::Stdin
    } else {
        IdSource::Args(args)
    }
}

} // verus!
