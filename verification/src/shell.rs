//! Shell commands as values: which program to run with which arguments, and
//! what the outcome of a run means. Running them is left to the caller.

use crate::error::{ErrorKind, ErrorModel, WizardError};
use vstd::prelude::*;
use vstd::string::StringExecFns;
use vstd::utf8::{decode_utf8, valid_utf8};

verus! {

/// A program and its arguments.
#[derive(Debug)]
pub struct ShellCommand {
    pub program: String,
    pub args: Vec<String>,
}

/// The mathematical content of a [`ShellCommand`].
pub ghost struct CommandModel {
    pub program: Seq<char>,
    pub args: Seq<Seq<char>>,
}

impl View for ShellCommand {
    type V = CommandModel;

    open spec fn view(&self) -> CommandModel {
        CommandModel { program: self.program@, args: self.args.deep_view() }
    }
}

/// What a finished command left behind.
#[derive(Debug)]
pub struct CommandOutput {
    /// Whether the command reported success.
    pub success: bool,
    /// What the command wrote to its output stream.
    pub stdout: Vec<u8>,
    /// What the command wrote to its error stream, as text.
    pub stderr: String,
}

/// The command that hands `command` to PowerShell.
pub open spec fn powershell_command(command: Seq<char>) -> CommandModel {
    CommandModel { program: "powershell"@, args: seq!["-Command"@, command] }
}

/// The command that hands `command` to bash.
pub open spec fn bash_command(command: Seq<char>) -> CommandModel {
    CommandModel { program: "bash"@, args: seq!["-c"@, command] }
}

/// The command that hands `command` to bash with administrator rights.
pub open spec fn admin_bash_command(command: Seq<char>) -> CommandModel {
    CommandModel { program: "pkexec"@, args: seq!["bash"@, "-c"@, command] }
}

/// Builds the command that runs `command` in PowerShell.
pub fn run_powershell_command(command: &str) -> (shell: ShellCommand)
    ensures
        shell@ == powershell_command(command@),
{
    let mut args: Vec<String> = Vec::new();
    args.push(String::from_str("-Command"));
    args.push(String::from_str(command));
    assert(args.deep_view() =~= seq!["-Command"@, command@]);
    ShellCommand { program: String::from_str("powershell"), args }
}

/// Builds the command that runs `command` in bash.
pub fn run_bash_command(command: &str) -> (shell: ShellCommand)
    ensures
        shell@ == bash_command(command@),
{
    let mut args: Vec<String> = Vec::new();
    args.push(String::from_str("-c"));
    args.push(String::from_str(command));
    assert(args.deep_view() =~= seq!["-c"@, command@]);
    ShellCommand { program: String::from_str("bash"), args }
}

/// Builds the command that runs `command` in bash with administrator rights.
pub fn run_admin_bash_command(command: &str) -> (shell: ShellCommand)
    ensures
        shell@ == admin_bash_command(command@),
{
    let mut args: Vec<String> = Vec::new();
    args.push(String::from_str("bash"));
    args.push(String::from_str("-c"));
    args.push(String::from_str(command));
    assert(args.deep_view() =~= seq!["bash"@, "-c"@, command@]);
    ShellCommand { program: String::from_str("pkexec"), args }
}

/// Judges a run of a command. `launched` is the output of the command, or the
/// reason why it could not be run at all. A command that could not be run, or
/// that ended unsuccessfully, is an error; the output of any other is handed
/// back unchanged.
pub fn run_command(launched: Result<CommandOutput, String>) -> (result: Result<
    CommandOutput,
    WizardError,
>)
    ensures
        match launched {
            Ok(output) => if output.success {
                result == Ok::<CommandOutput, WizardError>(output)
            } else {
                result matches Err(e) && e@ == (ErrorModel {
                    kind: ErrorKind::CommandFailed,
                    detail: output.stderr@,
                })
            },
            Err(reason) => result matches Err(e) && e@ == (ErrorModel {
                kind: ErrorKind::Operation,
                detail: reason@,
            }),
        },
{
    match launched {
        Ok(output) => {
            if output.success {
                Ok(output)
            } else {
                Err(WizardError { kind: ErrorKind::CommandFailed, detail: output.stderr })
            }
        },
        Err(reason) => Err(WizardError { kind: ErrorKind::Operation, detail: reason }),
    }
}

/// `String::from_utf8`, with its error dropped: the text that the bytes
/// encode, if they are valid UTF-8, and nothing otherwise.
#[verifier::external_body]
pub(crate) fn text_from_utf8(bytes: Vec<u8>) -> (text: Option<String>)
    ensures
        text is Some <==> valid_utf8(bytes@),
        text matches Some(t) ==> t@ == decode_utf8(bytes@),
{
    String::from_utf8(bytes).ok()
}

/// The text that a command wrote to its output stream. Output that is not
/// valid UTF-8 is an error.
pub fn output_text(output: CommandOutput) -> (result: Result<String, WizardError>)
    ensures
        result is Ok <==> valid_utf8(output.stdout@),
        result matches Ok(text) ==> text@ == decode_utf8(output.stdout@),
        result matches Err(e) ==> e@ == crate::error::plain_error(ErrorKind::InvalidUtf8),
{
    match text_from_utf8(output.stdout) {
        Some(text) => Ok(text),
        None => Err(WizardError::new(ErrorKind::InvalidUtf8)),
    }
}

} // verus!
