//! What every handler shares: the programs it runs, how a program's outcome
//! reads as text, and how a spoken announcement affects the answer.
use vstd::prelude::*;
use crate::sanitize::{lines_trimmed, replace_all, replaced, trim_line_ends};

verus! {

/// The kind of system a handler runs on; each program-running handler picks
/// its command line by it.
#[derive(Clone, Copy, Debug, PartialEq, Eq, Structural)]
pub enum Platform {
    Windows,
    Unix,
}

/// A program and its arguments.
#[derive(Debug)]
pub struct Invocation {
    pub program: String,
    pub args: Vec<String>,
}

/// The arguments, as character sequences.
pub open spec fn arg_texts(args: Seq<String>) -> Seq<Seq<char>> {
    args.map_values(|a: String| a@)
}

/// `inv` runs `program` with the arguments `args`.
pub open spec fn runs(inv: Invocation, program: Seq<char>, args: Seq<Seq<char>>) -> bool {
    inv.program@ == program && arg_texts(inv.args@) == args
}

/// Builds an invocation of `program` with the arguments `args`.
pub fn invocation(program: &str, args: Vec<&str>) -> (r: Invocation)
    ensures
        r.program@ == program@,
        r.args@.len() == args@.len(),
        forall|j: int| 0 <= j < args@.len() ==> #[trigger] r.args@[j]@ == args@[j]@,
{
    let mut out: Vec<String> = Vec::new();
    let mut i: usize = 0;
    while i < args.len()
        invariant
            i <= args@.len(),
            out@.len() == i,
            forall|j: int| 0 <= j < i ==> #[trigger] out@[j]@ == args@[j]@,
        decreases args@.len() - i,
    {
        out.push(String::from_str(args[i]));
        i = i + 1;
    }
    Invocation { program: String::from_str(program), args: out }
}

/// What a finished program handed back, its output already decoded as text.
#[derive(Debug)]
pub struct ProcessOutput {
    pub success: bool,
    pub stdout: String,
    pub stderr: String,
}

/// How a run of a program ended.
#[derive(Debug)]
pub enum RunOutcome {
    /// It exited, with this output.
    Finished(ProcessOutput),
    /// It did not exit in the time allowed, and was stopped.
    TimedOut,
    /// It could not be started, for this reason.
    NotStarted(String),
}

/// How the outcome of running a program reads: its output when it
/// succeeded (or a note that it printed nothing), its error output behind a
/// marker when it failed, each line without trailing whitespace; and the
/// reason when it could not be started.
pub open spec fn output_text(out: RunOutcome) -> Seq<char> {
    match out {
        RunOutcome::Finished(o) => if o.success {
            or_note(lines_trimmed(o.stdout@), "Command completed with no output."@)
        } else {
            "Command failed with error: "@ + lines_trimmed(o.stderr@)
        },
        RunOutcome::TimedOut => "Command timed out."@,
        RunOutcome::NotStarted(e) => "Failed to execute command: "@ + e@,
    }
}

/// The answer of a handler that runs a program and returns what it printed.
pub fn command_output(out: &RunOutcome) -> (r: String)
    ensures
        r@ == output_text(*out),
        r@.len() > 0,
{
    match out {
        RunOutcome::Finished(o) => if o.success {
            proof {
                reveal_strlit("Command completed with no output.");
            }
            unless_empty(trim_line_ends(o.stdout.as_str()), "Command completed with no output.")
        } else {
            proof {
                reveal_strlit("Command failed with error: ");
            }
            let mut r = String::from_str("Command failed with error: ");
            r.append(trim_line_ends(o.stderr.as_str()).as_str());
            r
        },
        RunOutcome::TimedOut => {
            proof {
                reveal_strlit("Command timed out.");
            }
            String::from_str("Command timed out.")
        },
        RunOutcome::NotStarted(e) => {
            proof {
                reveal_strlit("Failed to execute command: ");
            }
            let mut r = String::from_str("Failed to execute command: ");
            r.append(e.as_str());
            r
        },
    }
}

/// `t`, or `note` in its place when `t` is empty: an answer is never empty.
pub open spec fn or_note(t: Seq<char>, note: Seq<char>) -> Seq<char> {
    if t.len() == 0 {
        note
    } else {
        t
    }
}

/// `t`, or `note` in its place when `t` is empty.
pub fn unless_empty(t: String, note: &str) -> (r: String)
    ensures
        r@ == or_note(t@, note@),
        note@.len() > 0 ==> r@.len() > 0,
{
    if t.unicode_len() == 0 {
        String::from_str(note)
    } else {
        t
    }
}

/// The answer once the announcement has been tried: the prepared answer if it
/// was spoken, else the reason that speaking failed.
pub open spec fn after_speech(reply: Seq<char>, spoken: Result<(), String>) -> Seq<char> {
    match spoken {
        Ok(_) => reply,
        Err(e) => "Error: "@ + e@,
    }
}

/// Settles a handler's answer after its announcement was tried.
pub fn respond(reply: String, spoken: &Result<(), String>) -> (r: String)
    ensures
        r@ == after_speech(reply@, *spoken),
{
    match spoken {
        Ok(_) => reply,
        Err(e) => {
            let mut r = String::from_str("Error: ");
            r.append(e.as_str());
            r
        },
    }
}

/// The script that makes Windows speak `quoted`, a text already quoted.
pub open spec fn speech_script(quoted: Seq<char>) -> Seq<char> {
    "Add-Type -AssemblyName System.Speech; (New-Object System.Speech.Synthesis.SpeechSynthesizer).Speak('"@
        + quoted + "')"@
}

/// The program that speaks `text` aloud. On Windows the text goes inside a
/// single-quoted script string, so each `'` in it is doubled and the text
/// cannot end the string; elsewhere it is a plain argument.
pub fn speech(p: Platform, text: &str) -> (r: Invocation)
    ensures
        p == Platform::Windows ==> runs(
            r,
            "powershell"@,
            seq!["-Command"@, speech_script(replaced(text@, "'"@, "''"@))],
        ),
        p == Platform::Unix ==> runs(r, "espeak"@, seq![text@]),
{
    match p {
        Platform::Windows => {
            proof {
                reveal_strlit("'");
            }
            let quoted = replace_all(text, "'", "''");
            let mut script = String::from_str(
                "Add-Type -AssemblyName System.Speech; (New-Object System.Speech.Synthesis.SpeechSynthesizer).Speak('",
            );
            script.append(quoted.as_str());
            script.append("')");
            let inv = invocation("powershell", vec!["-Command", script.as_str()]);
            assert(arg_texts(inv.args@) =~= seq!["-Command"@, script@]);
            inv
        },
        Platform::Unix => {
            let inv = invocation("espeak", vec![text]);
            assert(arg_texts(inv.args@) =~= seq![text@]);
            inv
        },
    }
}

/// A handler's result: what it says aloud, and what it answers if that works.
#[derive(Debug)]
pub struct Announcement {
    pub speech: String,
    pub reply: String,
}

/// An announcement that says `text` and answers `text`.
pub fn echo(text: &str) -> (r: Announcement)
    ensures
        r.speech@ == text@,
        r.reply@ == text@,
{
    Announcement { speech: String::from_str(text), reply: String::from_str(text) }
}

/// How a handler ends once it has acted: with an answer straight away, or
/// with an announcement to speak first.
#[derive(Debug)]
pub enum Settled {
    Answer(String),
    Announce(Announcement),
}

/// The answer of a handler whose announcement could not be spoken.
pub fn speech_failure(e: &str) -> (r: String)
    ensures
        r@ == "Error: "@ + e@,
{
    let mut r = String::from_str("Error: ");
    r.append(e);
    r
}

/// `a` followed by `b`.
pub fn cat(a: &str, b: &str) -> (r: String)
    ensures
        r@ == a@ + b@,
{
    let mut r = String::from_str(a);
    r.append(b);
    r
}

/// `a`, `b` and `c` one after the other.
pub fn cat3(a: &str, b: &str, c: &str) -> (r: String)
    ensures
        r@ == a@ + b@ + c@,
{
    let mut r = String::from_str(a);
    r.append(b);
    r.append(c);
    r
}

/// A program for a handler to run, and what it announces once the program
/// has finished, if anything.
#[derive(Debug)]
pub struct Job {
    pub invocation: Invocation,
    pub speech: Option<String>,
}

/// `job` runs `program` with `args` and announces nothing.
pub open spec fn silent_job(job: Job, program: Seq<char>, args: Seq<Seq<char>>) -> bool {
    runs(job.invocation, program, args) && job.speech is None
}

/// `job` runs `program` with `args` and then announces `speech`.
pub open spec fn spoken_job(job: Job, program: Seq<char>, args: Seq<Seq<char>>, speech: Seq<char>) -> bool {
    runs(job.invocation, program, args) && (job.speech matches Some(t) && t@ == speech)
}

} // verus!
