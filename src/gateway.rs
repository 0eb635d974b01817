use vstd::prelude::*;

use crate::naming::{hex_digit, HEX_DIGITS};

verus! {

/// `s` with each double quote preceded by a backslash.
pub open spec fn escape_quotes(s: Seq<char>) -> Seq<char>
    decreases s.len(),
{
    if s.len() == 0 {
        Seq::empty()
    } else if s.last() == '"' {
        escape_quotes(s.drop_last()) + seq!['\\', '"']
    } else {
        escape_quotes(s.drop_last()).push(s.last())
    }
}

/// The shell command line that runs the agent program `program` on `prompt`
/// without permission prompts, the prompt being one double-quoted argument.
pub open spec fn agent_command_spec(program: Seq<char>, prompt: Seq<char>) -> Seq<char> {
    program + " --dangerously-skip-permissions \""@ + escape_quotes(prompt) + "\""@
}

/// The decimal digits of `n`, most significant first.
pub open spec fn decimal_digits(n: nat) -> Seq<char>
    decreases n,
{
    if n < 10 {
        seq![hex_digit(n as int)]
    } else {
        decimal_digits(n / 10).push(hex_digit((n % 10) as int))
    }
}

/// `n` in decimal, with a leading `-` where it is negative.
pub open spec fn decimal(n: int) -> Seq<char> {
    if n < 0 {
        seq!['-'] + decimal_digits((-n) as nat)
    } else {
        decimal_digits(n as nat)
    }
}

/// One invocation of the multiplexer's control program.
#[derive(Debug)]
pub enum TmuxOp {
    /// Create a detached session running `command`, optionally in `cwd`.
    NewSession { name: String, command: String, cwd: Option<String> },
    /// Let the program in the session rename its pane title.
    AllowRename { name: String },
    /// List all sessions as `<name>:<attached flag>` lines.
    ListSessions,
    /// Succeeds exactly when the session exists.
    HasSession { name: String },
    /// Print the session's pane title.
    PaneTitle { name: String },
    /// Print the session's pane working directory.
    PaneCwd { name: String },
    /// Print the session's pane content, starting `lines` lines back.
    CapturePane { name: String, lines: i32 },
    /// Terminate the session.
    KillSession { name: String },
    /// Attach the terminal to the session.
    AttachSession { name: String },
    /// Type `text` literally into the session.
    SendText { name: String, text: String },
    /// Press Enter in the session.
    SendEnter { name: String },
}

impl TmuxOp {
    /// The arguments of the invocation.
    pub open spec fn spec_args(&self) -> Seq<Seq<char>> {
        match self {
            TmuxOp::NewSession { name, command, cwd } => match cwd {
                Some(d) => seq!["new-session"@, "-d"@, "-s"@, name@, "-c"@, d@, command@],
                None => seq!["new-session"@, "-d"@, "-s"@, name@, command@],
            },
            TmuxOp::AllowRename { name } => seq![
                "set-option"@,
                "-t"@,
                name@,
                "allow-rename"@,
                "on"@,
            ],
            TmuxOp::ListSessions => seq![
                "list-sessions"@,
                "-F"@,
                "#{session_name}:#{session_attached}"@,
            ],
            TmuxOp::HasSession { name } => seq!["has-session"@, "-t"@, name@],
            TmuxOp::PaneTitle { name } => seq![
                "display-message"@,
                "-t"@,
                name@,
                "-p"@,
                "#{pane_title}"@,
            ],
            TmuxOp::PaneCwd { name } => seq![
                "display-message"@,
                "-t"@,
                name@,
                "-p"@,
                "#{pane_current_path}"@,
            ],
            TmuxOp::CapturePane { name, lines } => seq![
                "capture-pane"@,
                "-t"@,
                name@,
                "-p"@,
                "-S"@,
                seq!['-'] + decimal(*lines as int),
            ],
            TmuxOp::KillSession { name } => seq!["kill-session"@, "-t"@, name@],
            TmuxOp::AttachSession { name } => seq!["attach-session"@, "-t"@, name@],
            TmuxOp::SendText { name, text } => seq!["send-keys"@, "-t"@, name@, "-l"@, text@],
            TmuxOp::SendEnter { name } => seq!["send-keys"@, "-t"@, name@, "Enter"@],
        }
    }

    /// The arguments to hand the control program.
    pub fn args(&self) -> (r: Vec<String>)
        ensures
            r@.map_values(|a: String| a@) == self.spec_args(),
    {
        let mut v: Vec<String> = Vec::new();
        assert(v@.map_values(|a: String| a@) =~= Seq::<Seq<char>>::empty());
        match self {
            TmuxOp::NewSession { name, command, cwd } => {
                push_arg(&mut v, "new-session");
                push_arg(&mut v, "-d");
                push_arg(&mut v, "-s");
                push_arg(&mut v, name.as_str());
                match cwd {
                    Some(d) => {
                        push_arg(&mut v, "-c");
                        push_arg(&mut v, d.as_str());
                    },
                    None => {},
                }
                push_arg(&mut v, command.as_str());
                assert(v@.map_values(|a: String| a@) =~= self.spec_args());
            },
            TmuxOp::AllowRename { name } => {
                push_arg(&mut v, "set-option");
                push_arg(&mut v, "-t");
                push_arg(&mut v, name.as_str());
                push_arg(&mut v, "allow-rename");
                push_arg(&mut v, "on");
                assert(v@.map_values(|a: String| a@) =~= self.spec_args());
            },
            TmuxOp::ListSessions => {
                push_arg(&mut v, "list-sessions");
                push_arg(&mut v, "-F");
                push_arg(&mut v, "#{session_name}:#{session_attached}");
                assert(v@.map_values(|a: String| a@) =~= self.spec_args());
            },
            TmuxOp::HasSession { name } => {
                push_arg(&mut v, "has-session");
                push_arg(&mut v, "-t");
                push_arg(&mut v, name.as_str());
                assert(v@.map_values(|a: String| a@) =~= self.spec_args());
            },
            TmuxOp::PaneTitle { name } => {
                push_arg(&mut v, "display-message");
                push_arg(&mut v, "-t");
                push_arg(&mut v, name.as_str());
                push_arg(&mut v, "-p");
                push_arg(&mut v, "#{pane_title}");
                assert(v@.map_values(|a: String| a@) =~= self.spec_args());
            },
            TmuxOp::PaneCwd { name } => {
                push_arg(&mut v, "display-message");
                push_arg(&mut v, "-t");
                push_arg(&mut v, name.as_str());
                push_arg(&mut v, "-p");
                push_arg(&mut v, "#{pane_current_path}");
                assert(v@.map_values(|a: String| a@) =~= self.spec_args());
            },
            TmuxOp::CapturePane { name, lines } => {
                push_arg(&mut v, "capture-pane");
                push_arg(&mut v, "-t");
                push_arg(&mut v, name.as_str());
                push_arg(&mut v, "-p");
                push_arg(&mut v, "-S");
                let start = String::from_str("-").concat(decimal_string(*lines as i64).as_str());
                proof {
                    reveal_strlit("-");
                }
                assert(start@ =~= seq!['-'] + decimal(*lines as int));
                push_arg(&mut v, start.as_str());
                assert(v@.map_values(|a: String| a@) =~= self.spec_args());
            },
            TmuxOp::KillSession { name } => {
                push_arg(&mut v, "kill-session");
                push_arg(&mut v, "-t");
                push_arg(&mut v, name.as_str());
                assert(v@.map_values(|a: String| a@) =~= self.spec_args());
            },
            TmuxOp::AttachSession { name } => {
                push_arg(&mut v, "attach-session");
                push_arg(&mut v, "-t");
                push_arg(&mut v, name.as_str());
                assert(v@.map_values(|a: String| a@) =~= self.spec_args());
            },
            TmuxOp::SendText { name, text } => {
                push_arg(&mut v, "send-keys");
                push_arg(&mut v, "-t");
                push_arg(&mut v, name.as_str());
                push_arg(&mut v, "-l");
                push_arg(&mut v, text.as_str());
                assert(v@.map_values(|a: String| a@) =~= self.spec_args());
            },
            TmuxOp::SendEnter { name } => {
                push_arg(&mut v, "send-keys");
                push_arg(&mut v, "-t");
                push_arg(&mut v, name.as_str());
                push_arg(&mut v, "Enter");
                assert(v@.map_values(|a: String| a@) =~= self.spec_args());
            },
        }
        v
    }
}

/// Appends a copy of `s` to `v`.
fn push_arg(v: &mut Vec<String>, s: &str)
    ensures
        final(v)@.map_values(|a: String| a@) == old(v)@.map_values(|a: String| a@).push(s@),
{
    let ghost prev = v@;
    let a = String::from_str(s);
    v.push(a);
    assert(v@ == prev.push(a));
    assert(v@.map_values(|a: String| a@) =~= prev.map_values(|a: String| a@).push(s@));
}

/// The decimal digits of `n`.
fn digits_string(n: u64) -> (r: String)
    ensures
        r@ == decimal_digits(n as nat),
    decreases n,
{
    proof {
        reveal_strlit("0123456789abcdef");
    }
    let d = (n % 10) as usize;
    let digit = HEX_DIGITS.substring_char(d, d + 1);
    assert(digit@ =~= seq![hex_digit(d as int)]);
    if n < 10 {
        String::from_str(digit)
    } else {
        let mut s = digits_string(n / 10);
        s.append(digit);
        s
    }
}

/// `n` in decimal, with a leading `-` where it is negative.
pub fn decimal_string(n: i64) -> (r: String)
    requires
        n > i64::MIN,
    ensures
        r@ == decimal(n as int),
{
    proof {
        reveal_strlit("-");
    }
    if n < 0 {
        String::from_str("-").concat(digits_string((-n) as u64).as_str())
    } else {
        digits_string(n as u64)
    }
}

/// The command line that runs `program` on `prompt`; quotes inside the
/// prompt are escaped so that it stays one argument.
pub fn agent_command(program: &str, prompt: &str) -> (r: String)
    ensures
        r@ == agent_command_spec(program@, prompt@),
{
    let mut out = String::from_str(program);
    out.append(" --dangerously-skip-permissions \"");
    let ghost head = out@;
    let n = prompt.unicode_len();
    let mut i: usize = 0;
    while i < n
        invariant
            n == prompt@.len(),
            i <= n,
            out@ == head + escape_quotes(prompt@.subrange(0, i as int)),
        decreases n - i,
    {
        proof {
            reveal_strlit("\\\"");
        }
        let c = prompt.get_char(i);
        let ghost next = prompt@.subrange(0, i + 1);
        assert(next.drop_last() =~= prompt@.subrange(0, i as int));
        if c == '"' {
            out.append("\\\"");
            assert("\\\""@ =~= seq!['\\', '"']);
        } else {
            out.append(prompt.substring_char(i, i + 1));
        }
        assert(out@ =~= head + escape_quotes(next));
        i = i + 1;
    }
    assert(prompt@.subrange(0, n as int) =~= prompt@);
    out.append("\"");
    out
}

} // verus!
