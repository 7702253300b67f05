//! The pure half of audit logging: escaping the command so one invocation
//! stays one log line, and assembling the line itself. Obtaining the
//! timestamp and appending to the log file are the surrounding program's
//! concern; it hands the timestamp in as a plain string and writes the
//! returned line out unchanged.

use vstd::prelude::*;
use vstd::string::{StrSliceExecFns, StringExecFns};

use crate::detect::{tool_label, Tool};
use crate::rules::{decision_label, join_with_spaces, Decision};

verus! {

/// How one character appears in a log line: newline and carriage return are
/// escaped, everything else stands as itself.
pub open spec fn escaped_char(ch: char) -> Seq<char> {
    if ch == '\n' {
        seq!['\\', 'n']
    } else if ch == '\r' {
        seq!['\\', 'r']
    } else {
        seq![ch]
    }
}

/// The command string with every newline and carriage return escaped, so an
/// argument cannot forge extra log lines.
pub open spec fn sanitize_spec(s: Seq<char>) -> Seq<char>
    decreases s.len(),
{
    if s.len() == 0 {
        Seq::empty()
    } else {
        sanitize_spec(s.drop_last()) + escaped_char(s.last())
    }
}

/// Escapes newlines and carriage returns in a command string for the audit
/// log.
pub fn sanitize_for_log(s: &str) -> (r: String)
    ensures
        r@ == sanitize_spec(s@),
{
    let len = s.unicode_len();
    let mut out = String::new();
    let mut i: usize = 0;
    while i < len
        invariant
            i <= len,
            len == s@.len(),
            out@ == sanitize_spec(s@.take(i as int)),
        decreases len - i,
    {
        let ch = s.get_char(i);
        if ch == '\n' {
            out.append("\\n");
            proof {
                reveal_strlit("\\n");
                assert("\\n"@ =~= escaped_char('\n'));
            }
        } else if ch == '\r' {
            out.append("\\r");
            proof {
                reveal_strlit("\\r");
                assert("\\r"@ =~= escaped_char('\r'));
            }
        } else {
            let piece = s.substring_char(i, i + 1);
            out.append(piece);
            proof {
                assert(piece@ =~= escaped_char(ch));
            }
        }
        proof {
            assert(s@.take(i as int + 1).drop_last() =~= s@.take(i as int));
            assert(s@.take(i as int + 1).last() == s@[i as int]);
        }
        i += 1;
    }
    proof {
        assert(s@.take(len as int) =~= s@);
    }
    out
}

/// What one audit line holds: the timestamp in brackets, the decision, a
/// separator, then the tool and the sanitized command.
pub open spec fn log_line_spec(
    timestamp: Seq<char>,
    decision: Decision,
    tool: Tool,
    args: Seq<Seq<char>>,
) -> Seq<char> {
    "["@ + timestamp + "] "@ + decision_label(decision) + " | "@ + tool_label(tool) + " "@
        + sanitize_spec(join_with_spaces(args)) + "\n"@
}

/// Builds one audit line for an invocation, with the command joined and
/// sanitized. The caller supplies the timestamp and writes the line out.
pub fn format_log_line(timestamp: &str, decision: Decision, tool: Tool, args: &[String]) -> (r:
    String)
    ensures
        r@ == log_line_spec(timestamp@, decision, tool, args.deep_view()),
{
    let command = crate::rules::join_args(args);
    let sanitized = sanitize_for_log(command.as_str());
    let mut out = String::new();
    out.append("[");
    out.append(timestamp);
    out.append("] ");
    let decision_name = decision.label();
    out.append(decision_name.as_str());
    out.append(" | ");
    let tool_name = tool.label();
    out.append(tool_name.as_str());
    out.append(" ");
    out.append(sanitized.as_str());
    out.append("\n");
    out
}

} // verus!
