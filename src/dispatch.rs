//! Routing of a command name to a registered module, and the errors that a
//! module run ends with.
use vstd::prelude::*;
use crate::asp::AspError;

verus! {

/// The kinds of failure that the dispatcher and its modules report.
#[derive(Debug)]
pub enum ModuleErrorKind {
    NoSuchCommand(String),
    NoCommandSpecified,
    NoSubcommandSpecified(String),
    ModuleFailed(String),
    ConfigMissingInProfile(String),
}

/// The failure beneath a module error.
#[derive(Debug)]
pub enum Cause {
    Discovery(AspError),
    Module(Box<ModuleError>),
    Message(String),
}

/// A failure of one kind, chained to the failure that caused it, if any.
#[derive(Debug)]
pub struct ModuleError {
    pub kind: ModuleErrorKind,
    pub cause: Option<Cause>,
}

impl ModuleError {
    /// A failure with no cause beneath it.
    pub fn from_kind(kind: ModuleErrorKind) -> (r: ModuleError)
        ensures
            r.kind == kind,
            r.cause is None,
    {
        ModuleError { kind, cause: None }
    }

    /// A failure of `kind` that keeps `cause` beneath it.
    pub fn with_chain(cause: Cause, kind: ModuleErrorKind) -> (r: ModuleError)
        ensures
            r.kind == kind,
            r.cause == Some(cause),
    {
        ModuleError { kind, cause: Some(cause) }
    }
}

/// The modules that the tool registers at the top level, by command name.
pub open spec fn registered_modules() -> Seq<Seq<char>> {
    seq![
        "consul"@,
        "health"@,
        "infrastructure"@,
        "instances"@,
        "ops"@,
        "statuspages"@,
        "stories"@,
    ]
}

fn push_name(names: &mut Vec<String>, name: &str)
    ensures
        final(names)@.len() == old(names)@.len() + 1,
        final(names)@.drop_last() == old(names)@,
        final(names)@.last()@ == name@,
{
    names.push(name.to_owned());
    assert(final(names)@.drop_last() =~= old(names)@);
}

/// The table of top-level command names.
pub fn top_level_modules() -> (r: Vec<String>)
    ensures
        r@.map_values(|s: String| s@) == registered_modules(),
{
    proof {
        reveal_strlit("consul");
        reveal_strlit("health");
        reveal_strlit("infrastructure");
        reveal_strlit("instances");
        reveal_strlit("ops");
        reveal_strlit("statuspages");
        reveal_strlit("stories");
    }
    let mut names: Vec<String> = Vec::new();
    push_name(&mut names, "consul");
    push_name(&mut names, "health");
    push_name(&mut names, "infrastructure");
    push_name(&mut names, "instances");
    push_name(&mut names, "ops");
    push_name(&mut names, "statuspages");
    push_name(&mut names, "stories");
    assert(names@.map_values(|s: String| s@) =~= registered_modules());
    names
}

/// `name` is registered in `registry`.
pub open spec fn is_registered(registry: Seq<String>, name: Seq<char>) -> bool {
    exists|i: int| 0 <= i < registry.len() && (#[trigger] registry[i])@ == name
}

/// The position of the first entry of `registry` named `name`.
pub fn find_command(registry: &Vec<String>, name: &str) -> (r: Option<usize>)
    ensures
        r is None <==> !is_registered(registry@, name@),
        r is Some ==> r->0 < registry@.len() && registry@[r->0 as int]@ == name@
            && forall|j: int| 0 <= j < r->0 ==> (#[trigger] registry@[j])@ != name@,
{
    let wanted = name.to_owned();
    let mut i: usize = 0;
    while i < registry.len()
        invariant
            i <= registry@.len(),
            wanted@ == name@,
            forall|j: int| 0 <= j < i ==> (#[trigger] registry@[j])@ != name@,
        decreases registry.len() - i,
    {
        if registry[i] == wanted {
            return Some(i);
        }
        i = i + 1;
    }
    None
}

/// The registered module that a top-level command names. No command is
/// `NoCommandSpecified`; a name that is not registered is `NoSuchCommand`
/// with that name, and so no module is run.
pub fn dispatch(registry: &Vec<String>, command: Option<&str>) -> (r: Result<usize, ModuleError>)
    ensures
        command is None ==> r is Err && r->Err_0.kind is NoCommandSpecified,
        command is Some && !is_registered(registry@, command->0@) ==> r is Err
            && r->Err_0.kind is NoSuchCommand
            && r->Err_0.kind->NoSuchCommand_0@ == command->0@,
        command is Some && is_registered(registry@, command->0@) ==> r is Ok
            && r->Ok_0 < registry@.len()
            && registry@[r->Ok_0 as int]@ == command->0@,
        r is Err ==> r->Err_0.cause is None,
{
    match command {
        None => Err(ModuleError::from_kind(ModuleErrorKind::NoCommandSpecified)),
        Some(name) => match find_command(registry, name) {
            Some(i) => Ok(i),
            None => Err(ModuleError::from_kind(ModuleErrorKind::NoSuchCommand(name.to_owned()))),
        },
    }
}

/// The nested command that a module which wraps subcommands runs. No
/// subcommand is `NoSubcommandSpecified` with the module's name; otherwise
/// it goes as at the top level.
pub fn dispatch_subcommand(module: &str, registry: &Vec<String>, command: Option<&str>) -> (r: Result<usize, ModuleError>)
    ensures
        command is None ==> r is Err && r->Err_0.kind is NoSubcommandSpecified
            && r->Err_0.kind->NoSubcommandSpecified_0@ == module@,
        command is Some && !is_registered(registry@, command->0@) ==> r is Err
            && r->Err_0.kind is NoSuchCommand
            && r->Err_0.kind->NoSuchCommand_0@ == command->0@,
        command is Some && is_registered(registry@, command->0@) ==> r is Ok
            && r->Ok_0 < registry@.len()
            && registry@[r->Ok_0 as int]@ == command->0@,
        r is Err ==> r->Err_0.cause is None,
{
    match command {
        None => Err(ModuleError::from_kind(ModuleErrorKind::NoSubcommandSpecified(module.to_owned()))),
        Some(_) => dispatch(registry, command),
    }
}

/// The failure of module `module`, with what made it fail kept beneath.
pub fn module_failed(module: &str, cause: Cause) -> (r: ModuleError)
    ensures
        r.kind is ModuleFailed,
        r.kind->ModuleFailed_0@ == module@,
        r.cause == Some(cause),
{
    ModuleError::with_chain(cause, ModuleErrorKind::ModuleFailed(module.to_owned()))
}

/// Which profile a run asks for.
#[derive(Debug)]
pub enum ProfileSelector {
    Default,
    Named(String),
}

/// The profile that the active profile name selects: `default` selects the
/// default profile, any other name the profile of that name.
pub fn profile_selector(active: &str) -> (r: ProfileSelector)
    ensures
        active@ == "default"@ ==> r is Default,
        active@ != "default"@ ==> r is Named && r->Named_0@ == active@,
{
    proof {
        reveal_strlit("default");
    }
    let name = active.to_owned();
    if name == "default".to_owned() {
        ProfileSelector::Default
    } else {
        ProfileSelector::Named(name)
    }
}

} // verus!
