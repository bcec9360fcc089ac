//! `doctor`: diagnose required and optional tools on this machine.

use vstd::prelude::*;
use vstd::string::*;

use crate::errors::{concat2, concat3, concat4};
use crate::output::{message_views, Level, Message};
use crate::text::{
    decimal, decimal_string, eq_str, pad_right, pad_right_string, string_views, trim, trim_str,
};

verus! {

/// A tool the doctor looks for.
#[derive(Debug)]
pub struct Check {
    pub name: String,
    pub program: String,
    pub args: Vec<String>,
    pub required: bool,
    pub hint: String,
}

/// A check as plain values: name, program, arguments, required, hint.
pub open spec fn check_view(c: Check) -> (Seq<char>, Seq<char>, Seq<Seq<char>>, bool, Seq<char>) {
    (c.name@, c.program@, string_views(c.args@), c.required, c.hint@)
}

pub open spec fn check_views(v: Seq<Check>) -> Seq<(Seq<char>, Seq<char>, Seq<Seq<char>>, bool, Seq<char>)> {
    v.map_values(|c: Check| check_view(c))
}

/// The tools checked, in order.
pub open spec fn doctor_checks() -> Seq<(Seq<char>, Seq<char>, Seq<Seq<char>>, bool, Seq<char>)> {
    seq![
        ("Rustc"@, "rustc"@, seq!["--version"@], true, "Install via https://rustup.rs/"@),
        ("Cargo"@, "cargo"@, seq!["--version"@], true, "Install via https://rustup.rs/"@),
        (
            "stellar-cli"@,
            "stellar"@,
            seq!["--version"@],
            false,
            "https://developers.stellar.org/docs/tools/developer-tools/cli/stellar-cli"@,
        ),
        (
            "Node.js"@,
            "node"@,
            seq!["--version"@],
            false,
            "Required for --lang ts MCP servers. https://nodejs.org/"@,
        ),
        (
            "npm"@,
            "npm"@,
            seq!["--version"@],
            false,
            "Ships with Node.js; used to install the TypeScript agent."@,
        ),
        (
            "Python"@,
            "python"@,
            seq!["--version"@],
            false,
            "Required for --lang py (python3 is also accepted)."@,
        ),
        (
            "uv"@,
            "uv"@,
            seq!["--version"@],
            false,
            "https://docs.astral.sh/uv/ — recommended for Python MCP servers."@,
        ),
    ]
}

fn check(name: &str, program: &str, required: bool, hint: &str) -> (c: Check)
    ensures
        check_view(c) == (name@, program@, seq!["--version"@], required, hint@),
{
    let mut args = Vec::new();
    args.push(String::from_str("--version"));
    let c = Check {
        name: String::from_str(name),
        program: String::from_str(program),
        args,
        required,
        hint: String::from_str(hint),
    };
    assert(string_views(c.args@) =~= seq!["--version"@]);
    c
}

/// The tools checked, in order.
pub fn checks() -> (v: Vec<Check>)
    ensures
        check_views(v@) == doctor_checks(),
{
    let mut v = Vec::new();
    v.push(check("Rustc", "rustc", true, "Install via https://rustup.rs/"));
    v.push(check("Cargo", "cargo", true, "Install via https://rustup.rs/"));
    v.push(
        check(
            "stellar-cli",
            "stellar",
            false,
            "https://developers.stellar.org/docs/tools/developer-tools/cli/stellar-cli",
        ),
    );
    v.push(check("Node.js", "node", false, "Required for --lang ts MCP servers. https://nodejs.org/"));
    v.push(check("npm", "npm", false, "Ships with Node.js; used to install the TypeScript agent."));
    v.push(check("Python", "python", false, "Required for --lang py (python3 is also accepted)."));
    v.push(check("uv", "uv", false, "https://docs.astral.sh/uv/ — recommended for Python MCP servers."));
    assert(check_views(v@) =~= doctor_checks());
    v
}

/// The part of `t` before its first line feed.
pub open spec fn before_newline(t: Seq<char>) -> Seq<char>
    decreases t.len(),
{
    if t.len() == 0 || t[0] == '\n' {
        seq![]
    } else {
        seq![t[0]] + before_newline(t.drop_first())
    }
}

/// The first line of a non-empty text (`str::lines().next()`): the text up
/// to the first line feed, without a carriage return right before it.
pub open spec fn first_line(t: Seq<char>) -> Seq<char> {
    let l = before_newline(t);
    if l.len() < t.len() && l.len() > 0 && l.last() == '\r' {
        l.drop_last()
    } else {
        l
    }
}

/// The version a tool reports: nothing unless it exited successfully; else
/// the first line of its trimmed standard output, or of its trimmed standard
/// error when the output is empty; nothing when both are empty.
pub open spec fn reported_version(success: bool, stdout: Seq<char>, stderr: Seq<char>) -> Option<Seq<char>> {
    if !success {
        None
    } else {
        let t = if trim(stdout).len() == 0 {
            trim(stderr)
        } else {
            trim(stdout)
        };
        if t.len() == 0 {
            None
        } else {
            Some(first_line(t))
        }
    }
}

proof fn lemma_before_newline(t: Seq<char>, k: int)
    requires
        0 <= k <= t.len(),
        forall|i: int| 0 <= i < k ==> #[trigger] t[i] != '\n',
        k == t.len() || t[k] == '\n',
    ensures
        before_newline(t) == t.take(k),
    decreases k,
{
    if k == 0 {
        assert(t.take(0) =~= Seq::<char>::empty());
    } else {
        let u = t.drop_first();
        assert forall|i: int| 0 <= i < k - 1 implies #[trigger] u[i] != '\n' by {
            assert(u[i] == t[i + 1]);
        }
        if k < t.len() {
            assert(u[k - 1] == t[k]);
        }
        lemma_before_newline(u, k - 1);
        assert(seq![t[0]] + u.take(k - 1) =~= t.take(k));
    }
}

fn first_line_str(t: &str) -> (r: &str)
    ensures
        r@ == first_line(t@),
{
    let n = t.unicode_len();
    let mut k: usize = 0;
    while k < n && t.get_char(k) != '\n'
        invariant
            k <= n,
            n == t@.len(),
            forall|i: int| 0 <= i < k ==> #[trigger] t@[i] != '\n',
        decreases n - k,
    {
        k = k + 1;
    }
    proof {
        lemma_before_newline(t@, k as int);
        assert(t@.take(k as int) =~= t@.subrange(0, k as int));
    }
    if k < n && k > 0 && t.get_char(k - 1) == '\r' {
        assert(t@.take(k as int).drop_last() =~= t@.subrange(0, k - 1));
        t.substring_char(0, k - 1)
    } else {
        t.substring_char(0, k)
    }
}

/// The version line of a finished `<program> --version` run.
pub fn probe_version(success: bool, stdout: &str, stderr: &str) -> (r: Option<String>)
    ensures
        match reported_version(success, stdout@, stderr@) {
            None => r is None,
            Some(v) => r matches Some(s) && s@ == v,
        },
{
    if !success {
        return None;
    }
    let mut text = trim_str(stdout);
    if text.unicode_len() == 0 {
        text = trim_str(stderr);
    }
    if text.unicode_len() == 0 {
        return None;
    }
    Some(String::from_str(first_line_str(text)))
}

/// The tool run in place of a check's program when that program is missing.
pub open spec fn fallback_for(program: Seq<char>) -> Option<Seq<char>> {
    if program == "python"@ {
        Some("python3"@)
    } else {
        None
    }
}

/// The program to probe next for `check` when probing its own program gave
/// `primary`: `python3` in place of a missing `python`, otherwise none.
pub fn fallback_program(check: &Check, primary: &Option<String>) -> (r: Option<String>)
    ensures
        primary is Some ==> r is None,
        primary is None ==> match fallback_for(check.program@) {
            None => r is None,
            Some(p) => r matches Some(s) && s@ == p,
        },
{
    if primary.is_none() && eq_str(check.program.as_str(), "python") {
        Some(String::from_str("python3"))
    } else {
        None
    }
}

/// What probing one check gave: the version of its own program, and the
/// version of the fallback program when one was probed.
#[derive(Debug)]
pub struct CheckOutcome {
    pub check: Check,
    pub primary: Option<String>,
    pub fallback: Option<String>,
}

pub open spec fn opt_seq(o: Option<String>) -> Option<Seq<char>> {
    match o {
        Some(s) => Some(s@),
        None => None,
    }
}

/// The version found for a check: its own program's, or for `python` the
/// fallback's.
pub open spec fn found_version(o: CheckOutcome) -> Option<Seq<char>> {
    if o.primary is Some {
        opt_seq(o.primary)
    } else if fallback_for(o.check.program@) is Some {
        opt_seq(o.fallback)
    } else {
        None
    }
}

/// The line reported for a check.
pub open spec fn check_line(o: CheckOutcome) -> Seq<char> {
    match found_version(o) {
        Some(v) => "  ok   "@ + pad_right(o.check.name@, 12) + " "@ + v,
        None => "  "@ + (if o.check.required {
            "need"@
        } else {
            "skip"@
        }) + " "@ + pad_right(o.check.name@, 12) + " not found — "@ + o.check.hint@,
    }
}

/// How many required tools were not found.
pub open spec fn missing_required(outcomes: Seq<CheckOutcome>) -> nat
    decreases outcomes.len(),
{
    if outcomes.len() == 0 {
        0
    } else {
        missing_required(outcomes.drop_last()) + (if outcomes.last().check.required
            && found_version(outcomes.last()) is None {
            1nat
        } else {
            0nat
        })
    }
}

/// The report of a doctor run.
#[derive(Debug)]
pub struct DoctorReport {
    /// Lines to show, in order.
    pub messages: Vec<Message>,
    /// Number of required tools that were not found.
    pub missing_required: usize,
    /// Why the run fails, when a required tool is missing.
    pub failure: Option<String>,
}

/// The lines of a doctor run over `outcomes`.
pub open spec fn doctor_messages(outcomes: Seq<CheckOutcome>) -> Seq<(Level, Seq<char>)> {
    seq![(Level::Success, "Agent-Devex toolchain doctor"@)] + outcomes.map_values(
        |o: CheckOutcome| (Level::Hint, check_line(o)),
    ) + if missing_required(outcomes) == 0 {
        seq![
            (
                Level::Success,
                "Required tools are present. Optional gaps only affect deploy or a specific --lang."@,
            ),
        ]
    } else {
        seq![]
    }
}

/// The failure text when `n` required tools are missing.
pub open spec fn doctor_failure(n: nat) -> Seq<char> {
    decimal(n) + " required tool(s) missing — install them before building the CLI"@
}

fn check_line_message(o: &CheckOutcome) -> (m: Message)
    ensures
        m.level == Level::Hint,
        m.text@ == check_line(*o),
{
    let name = pad_right_string(o.check.name.as_str(), 12);
    let found: Option<&String> = match &o.primary {
        Some(v) => Some(v),
        None => {
            if eq_str(o.check.program.as_str(), "python") {
                match &o.fallback {
                    Some(v) => Some(v),
                    None => None,
                }
            } else {
                None
            }
        },
    };
    match found {
        Some(v) => {
            let mut t = concat2("  ok   ", name.as_str());
            t.append(" ");
            t.append(v.as_str());
            Message::hint(t)
        },
        None => {
            let kind = if o.check.required {
                "need"
            } else {
                "skip"
            };
            let mut t = concat4("  ", kind, " ", name.as_str());
            t.append(" not found — ");
            t.append(o.check.hint.as_str());
            Message::hint(t)
        },
    }
}

/// Report each check, and fail when a required tool is missing.
pub fn cmd_doctor(outcomes: &Vec<CheckOutcome>) -> (r: DoctorReport)
    ensures
        message_views(r.messages@) == doctor_messages(outcomes@),
        r.missing_required == missing_required(outcomes@),
        missing_required(outcomes@) == 0 ==> r.failure is None,
        missing_required(outcomes@) > 0 ==> (r.failure matches Some(f) && f@ == doctor_failure(
            missing_required(outcomes@),
        )),
{
    let mut messages: Vec<Message> = Vec::new();
    messages.push(Message::success(String::from_str("Agent-Devex toolchain doctor")));
    let ghost head = message_views(messages@);
    let mut missing: usize = 0;
    let mut i: usize = 0;
    while i < outcomes.len()
        invariant
            i <= outcomes.len(),
            missing <= i,
            missing == missing_required(outcomes@.take(i as int)),
            message_views(messages@) == head + outcomes@.take(i as int).map_values(
                |o: CheckOutcome| (Level::Hint, check_line(o)),
            ),
            head == seq![(Level::Success, "Agent-Devex toolchain doctor"@)],
        decreases outcomes.len() - i,
    {
        let ghost before = message_views(messages@);
        let m = check_line_message(&outcomes[i]);
        let found_none = match &outcomes[i].primary {
            Some(_) => false,
            None => !eq_str(outcomes[i].check.program.as_str(), "python")
                || outcomes[i].fallback.is_none(),
        };
        messages.push(m);
        if outcomes[i].check.required && found_none {
            missing = missing + 1;
        }
        proof {
            let t = outcomes@.take(i + 1);
            assert(t.drop_last() =~= outcomes@.take(i as int));
            assert(t.last() == outcomes@[i as int]);
            assert(found_none == (found_version(outcomes@[i as int]) is None));
            assert(message_views(messages@) =~= before.push((Level::Hint, check_line(outcomes@[i as int]))));
            assert(t.map_values(|o: CheckOutcome| (Level::Hint, check_line(o))) =~= outcomes@.take(
                i as int,
            ).map_values(|o: CheckOutcome| (Level::Hint, check_line(o))).push(
                (Level::Hint, check_line(outcomes@[i as int])),
            ));
        }
        i = i + 1;
    }
    proof {
        assert(outcomes@.take(outcomes.len() as int) =~= outcomes@);
    }
    let ghost body = message_views(messages@);
    if missing > 0 {
        let failure = concat2(
            decimal_string(missing as u64).as_str(),
            " required tool(s) missing — install them before building the CLI",
        );
        assert(body + Seq::<(Level, Seq<char>)>::empty() =~= body);
        return DoctorReport { messages, missing_required: missing, failure: Some(failure) };
    }
    messages.push(
        Message::success(
            String::from_str(
                "Required tools are present. Optional gaps only affect deploy or a specific --lang.",
            ),
        ),
    );
    DoctorReport { messages, missing_required: missing, failure: None }
}

} // verus!
