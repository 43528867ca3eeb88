use vstd::prelude::*;

use crate::state::{CliCommandType, MessageType};

verus! {

#[derive(Clone, Copy, Debug, PartialEq, Eq, Structural)]
pub enum ResponseStatus {
    Success,
    Failure,
}

/// A language-model reply, or the text of the failure that replaced it.
#[derive(Debug)]
pub struct AssistantResponse {
    pub output: String,
    pub status: ResponseStatus,
}

/// The text of a command run, with whether it succeeded.
#[derive(Debug)]
pub struct CliResponse {
    pub output: String,
    pub status: ResponseStatus,
}

/// A shell command proposed by the model.
#[derive(Debug)]
pub struct CliCommand {
    pub command_type: CliCommandType,
    pub command: String,
}

impl Clone for CliCommand {
    fn clone(&self) -> (r: Self)
        ensures
            r == *self,
    {
        CliCommand { command_type: self.command_type, command: self.command.clone() }
    }
}

/// How a chat-action step ended: whether the loop may go on unattended.
#[derive(Clone, Copy, Debug, PartialEq, Eq, Structural)]
pub enum ChatActionOutcome {
    Continue,
    Stop,
}

/// What the command executor reports of one run.
#[derive(Debug)]
pub struct CommandReport {
    pub stdout: String,
    pub stderr: String,
    /// `None` when the process ended without an exit code (by a signal).
    pub exit_code: Option<i32>,
}

/// The command proposed by a reply: for now any non-empty reply is taken as
/// one write/execute command, its whole text.
pub open spec fn extracted_command(reply: Seq<char>) -> Option<(CliCommandType, Seq<char>)> {
    if reply.len() > 0 {
        Some((CliCommandType::WriteExecuteCliCommand, reply))
    } else {
        None
    }
}

pub fn extract_command_from_frontend_message(command: String) -> (r: Option<CliCommand>)
    ensures
        match r {
            Some(c) => extracted_command(command@) == Some((c.command_type, c.command@)),
            None => extracted_command(command@) is None,
        },
{
    if command.as_str().is_empty() {
        None
    } else {
        Some(CliCommand { command_type: CliCommandType::WriteExecuteCliCommand, command })
    }
}

pub open spec fn assistant_status_of(reply: Result<String, String>) -> ResponseStatus {
    match reply {
        Ok(_) => ResponseStatus::Success,
        Err(_) => ResponseStatus::Failure,
    }
}

pub open spec fn reply_text(reply: Result<String, String>) -> Seq<char> {
    match reply {
        Ok(s) => s@,
        Err(e) => e@,
    }
}

/// Wraps the language-model client's answer: its text on success, the
/// failure's text otherwise.
pub fn assistant_response_of(reply: Result<String, String>) -> (r: AssistantResponse)
    ensures
        r.output@ == reply_text(reply),
        r.status == assistant_status_of(reply),
{
    match reply {
        Ok(output) => AssistantResponse { output, status: ResponseStatus::Success },
        Err(output) => AssistantResponse { output, status: ResponseStatus::Failure },
    }
}

pub open spec fn digit_char(d: int) -> char {
    if d == 0 {
        '0'
    } else if d == 1 {
        '1'
    } else if d == 2 {
        '2'
    } else if d == 3 {
        '3'
    } else if d == 4 {
        '4'
    } else if d == 5 {
        '5'
    } else if d == 6 {
        '6'
    } else if d == 7 {
        '7'
    } else if d == 8 {
        '8'
    } else {
        '9'
    }
}

/// The decimal digits of `n`, most significant first.
pub open spec fn decimal_of(n: nat) -> Seq<char>
    decreases n,
{
    if n < 10 {
        seq![digit_char(n as int)]
    } else {
        decimal_of(n / 10).push(digit_char((n % 10) as int))
    }
}

pub open spec fn signed_decimal_of(n: int) -> Seq<char> {
    if n < 0 {
        seq!['-'] + decimal_of((-n) as nat)
    } else {
        decimal_of(n as nat)
    }
}

fn digit_str(d: u64) -> (r: &'static str)
    requires
        d < 10,
    ensures
        r@ == seq![digit_char(d as int)],
{
    proof {
        reveal_strlit("0");
        reveal_strlit("1");
        reveal_strlit("2");
        reveal_strlit("3");
        reveal_strlit("4");
        reveal_strlit("5");
        reveal_strlit("6");
        reveal_strlit("7");
        reveal_strlit("8");
        reveal_strlit("9");
    }
    if d == 0 {
        assert("0"@ =~= seq!['0']);
        "0"
    } else if d == 1 {
        assert("1"@ =~= seq!['1']);
        "1"
    } else if d == 2 {
        assert("2"@ =~= seq!['2']);
        "2"
    } else if d == 3 {
        assert("3"@ =~= seq!['3']);
        "3"
    } else if d == 4 {
        assert("4"@ =~= seq!['4']);
        "4"
    } else if d == 5 {
        assert("5"@ =~= seq!['5']);
        "5"
    } else if d == 6 {
        assert("6"@ =~= seq!['6']);
        "6"
    } else if d == 7 {
        assert("7"@ =~= seq!['7']);
        "7"
    } else if d == 8 {
        assert("8"@ =~= seq!['8']);
        "8"
    } else {
        assert("9"@ =~= seq!['9']);
        "9"
    }
}

fn append_decimal(s: &mut String, n: u64)
    ensures
        final(s)@ == old(s)@ + decimal_of(n as nat),
    decreases n,
{
    if n >= 10 {
        append_decimal(s, n / 10);
    }
    s.append(digit_str(n % 10));
    proof {
        if n >= 10 {
            assert(decimal_of(n as nat) == decimal_of((n / 10) as nat).push(digit_char((n % 10) as int)));
        }
    }
    assert(final(s)@ =~= old(s)@ + decimal_of(n as nat));
}

/// The text that a run folds into the history: for a failed run, what it
/// printed on both streams, then how it ended; for a run that could not
/// start, the executor's error.
pub open spec fn folded_output(result: Result<CommandReport, String>) -> Seq<char> {
    match result {
        Ok(rep) => match rep.exit_code {
            Some(c) => if c == 0 {
                rep.stdout@
            } else {
                rep.stdout@ + rep.stderr@ + "[exit status "@ + signed_decimal_of(c as int) + "]"@
            },
            None => rep.stdout@ + rep.stderr@ + "[terminated by a signal]"@,
        },
        Err(e) => e@,
    }
}

pub open spec fn run_succeeded(result: Result<CommandReport, String>) -> bool {
    result matches Ok(rep) && rep.exit_code == Some(0i32)
}

/// Turns the command executor's report into the response that the step
/// records: a failing command is data for the model, not an error.
pub fn cli_response_of(result: Result<CommandReport, String>) -> (r: CliResponse)
    ensures
        r.output@ == folded_output(result),
        r.status == (if run_succeeded(result) {
            ResponseStatus::Success
        } else {
            ResponseStatus::Failure
        }),
{
    match result {
        Ok(rep) => {
            match rep.exit_code {
                Some(c) => {
                    if c == 0 {
                        return CliResponse { output: rep.stdout, status: ResponseStatus::Success };
                    }
                    let mut out = rep.stdout;
                    out.append(rep.stderr.as_str());
                    out.append("[exit status ");
                    if c < 0 {
                        out.append("-");
                        let m: i64 = -(c as i64);
                        append_decimal(&mut out, m as u64);
                        proof {
                            reveal_strlit("-");
                            assert("-"@ =~= seq!['-']);
                        }
                    } else {
                        append_decimal(&mut out, c as u64);
                    }
                    out.append("]");
                    proof {
                        assert(out@ =~= folded_output(Ok(rep)));
                    }
                    CliResponse { output: out, status: ResponseStatus::Failure }
                },
                None => {
                    let mut out = rep.stdout;
                    out.append(rep.stderr.as_str());
                    out.append("[terminated by a signal]");
                    CliResponse { output: out, status: ResponseStatus::Failure }
                },
            }
        },
        Err(e) => CliResponse { output: e, status: ResponseStatus::Failure },
    }
}

} // verus!
