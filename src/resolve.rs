//! Turning a catalog command template into the command that the external
//! application runs, given where the managed runtimes live.
use crate::runtime::{Os, RuntimeKind, RuntimeRecords, RuntimeSource};
use crate::text::{join_spaced, join_spaced_exec, same_text, strings_view};
use vstd::prelude::*;

verus! {

/// The runtime whose tool `command` names, if any.
pub open spec fn runtime_tool(command: Seq<char>) -> Option<RuntimeKind> {
    if command == "npx"@ {
        Some(RuntimeKind::Node)
    } else if command == "uvx"@ {
        Some(RuntimeKind::PythonPackager)
    } else {
        None
    }
}

/// A shell invocation that puts `dir` on `PATH` before running `tool` with
/// `args`.
pub open spec fn wrapped_invocation(os: Os, dir: Seq<char>, tool: Seq<char>, args: Seq<Seq<char>>) -> (
    Seq<char>,
    Seq<Seq<char>>,
) {
    match os {
        Os::Posix => (
            "sh"@,
            seq!["-c"@, "PATH=\""@ + dir + ":$PATH\" "@ + tool + " "@ + join_spaced(args)],
        ),
        Os::Windows => (
            "cmd"@,
            seq!["/c"@, "set PATH=%PATH%;"@ + dir + " && "@ + tool + " "@ + join_spaced(args)],
        ),
    }
}

/// The command and arguments to persist for a catalog template: a tool of a
/// runtime that is not the system's own runs through a wrapping shell, every
/// other command passes through.
pub open spec fn resolved_command(
    command: Seq<char>,
    args: Seq<Seq<char>>,
    records: RuntimeRecords,
    os: Os,
) -> (Seq<char>, Seq<Seq<char>>) {
    match runtime_tool(command) {
        Some(kind) => if records.spec_get(kind).source != RuntimeSource::System {
            wrapped_invocation(os, records.spec_get(kind).path@, command, args)
        } else {
            (command, args)
        },
        None => (command, args),
    }
}

/// The runtime whose tool `command` names, if any.
fn tool_of(command: &str) -> (r: Option<RuntimeKind>)
    ensures
        r == runtime_tool(command@),
{
    if same_text(command, "npx") {
        Some(RuntimeKind::Node)
    } else if same_text(command, "uvx") {
        Some(RuntimeKind::PythonPackager)
    } else {
        None
    }
}

/// Builds the wrapping shell invocation of `tool` with `dir` on `PATH`.
fn wrap_invocation(os: Os, dir: &str, tool: &str, args: &Vec<String>) -> (r: (String, Vec<String>))
    ensures
        (r.0@, strings_view(r.1@)) == wrapped_invocation(os, dir@, tool@, strings_view(args@)),
{
    let joined = join_spaced_exec(args);
    let (shell, flag, mut line) = match os {
        Os::Posix => (String::from_str("sh"), String::from_str("-c"), String::from_str("PATH=\"")),
        Os::Windows => (
            String::from_str("cmd"),
            String::from_str("/c"),
            String::from_str("set PATH=%PATH%;"),
        ),
    };
    line.append(dir);
    match os {
        Os::Posix => line.append(":$PATH\" "),
        Os::Windows => line.append(" && "),
    }
    line.append(tool);
    line.append(" ");
    line.append(joined.as_str());
    let mut out: Vec<String> = Vec::new();
    out.push(flag);
    out.push(line);
    proof {
        let expected = wrapped_invocation(os, dir@, tool@, strings_view(args@));
        assert(strings_view(out@) =~= expected.1);
    }
    (shell, out)
}

/// Resolves a catalog command template against the runtime records.
pub fn resolve_command(command: &String, args: &Vec<String>, records: &RuntimeRecords, os: Os) -> (r: (
    String,
    Vec<String>,
))
    ensures
        (r.0@, strings_view(r.1@)) == resolved_command(command@, strings_view(args@), *records, os),
{
    match tool_of(command.as_str()) {
        Some(kind) => {
            let record = records.get(kind);
            if record.source != RuntimeSource::System {
                wrap_invocation(os, record.path.as_str(), command.as_str(), args)
            } else {
                (command.clone(), crate::text::copy_strings(args))
            }
        },
        None => (command.clone(), crate::text::copy_strings(args)),
    }
}

} // verus!
