//! The handlers that mostly talk: greetings, help, power and volume
//! control, the working directory and the system reports.
use vstd::prelude::*;
use crate::protocol::{
    after_speech, arg_texts, cat, echo, invocation, respond, runs, Announcement, Invocation, Platform, Settled,
};
use crate::words::texts;

verus! {

/// Greets the user.
pub fn hello() -> (r: Announcement)
    ensures
        r.speech@ == "Hello!"@,
        r.reply@ == "Hello!"@,
{
    echo("Hello!")
}

/// Names the authors.
pub fn who_created_you() -> (r: Announcement)
    ensures
        r.speech@ == "Sutharsan and Nandhana."@,
        r.reply@ == "Sutharsan and Nandhana."@,
{
    echo("Sutharsan and Nandhana.")
}

/// The list of commands that `help` reads out.
pub open spec fn help_text() -> Seq<char> {
    "Available commands:\nhello\nwho_created_you\nhelp\ncurrent_day\ncurrent_date\ncurrent_time\nshow_calendar\ngo_home\nroot_directory\ngo_my_directory\ncurrent_directory\nnavigate_directories\nlist_files\nopen_file\ncreate_file\ndelete_file\ncreate_nano_file\nprint_file_content\ncreate_symlink\ndisk_usage\nmemory_usage\ncpu_usage\nswap_memory\nfree_memory\ndf_command\nps_command\nget_uptime\nlist_processes\nlist_services\nlist_users\nlist_ports\nlist_networks\nlist_drives\nlist_disks\nlist_printers\nlist_folders\nvolume_up\nvolume_down\ncompile_code\nrun_code\nshutdown\nrestart\nlogout\nhibernate\nsleep\ncommand_history"@
}

/// Lists the commands, and says so aloud.
pub fn help() -> (r: Announcement)
    ensures
        r.speech@ == "Here are the available commands."@,
        r.reply@ == help_text(),
{
    Announcement {
        speech: String::from_str("Here are the available commands."),
        reply: String::from_str("Available commands:\nhello\nwho_created_you\nhelp\ncurrent_day\ncurrent_date\ncurrent_time\nshow_calendar\ngo_home\nroot_directory\ngo_my_directory\ncurrent_directory\nnavigate_directories\nlist_files\nopen_file\ncreate_file\ndelete_file\ncreate_nano_file\nprint_file_content\ncreate_symlink\ndisk_usage\nmemory_usage\ncpu_usage\nswap_memory\nfree_memory\ndf_command\nps_command\nget_uptime\nlist_processes\nlist_services\nlist_users\nlist_ports\nlist_networks\nlist_drives\nlist_disks\nlist_printers\nlist_folders\nvolume_up\nvolume_down\ncompile_code\nrun_code\nshutdown\nrestart\nlogout\nhibernate\nsleep\ncommand_history"),
    }
}

/// The answer of `navigate_directories`, which the web interface cannot
/// offer.
pub fn navigate_directories() -> (r: String)
    ensures
        r@ == "Error: Interactive navigation not supported via API yet."@,
{
    String::from_str("Error: Interactive navigation not supported via API yet.")
}

/// Says goodbye; the server stops once this has been spoken.
pub fn exit() -> (r: Announcement)
    ensures
        r.speech@ == "Goodbye!"@,
        r.reply@ == "Goodbye!"@,
{
    echo("Goodbye!")
}

/// A power action: the program that carries it out, what is said once it has
/// been started, and the answers when it started or failed to.
#[derive(Debug)]
pub struct PowerAction {
    pub speeches: Vec<String>,
    pub invocation: Invocation,
    pub done: String,
    pub failed: String,
}

/// `a` runs `program` with `args`, then says `speeches`, and answers `done`,
/// or `failed` before the reason.
pub open spec fn power_plan(
    a: PowerAction,
    speeches: Seq<Seq<char>>,
    program: Seq<char>,
    args: Seq<Seq<char>>,
    done: Seq<char>,
    failed: Seq<char>,
) -> bool {
    texts(a.speeches@) == speeches && runs(a.invocation, program, args) && a.done@ == done
        && a.failed@ == failed
}

/// The answer of a power action once its program was started or failed to
/// start.
pub fn power_reply(a: &PowerAction, status: &Result<(), String>) -> (r: String)
    ensures
        match *status {
            Ok(_) => r@ == a.done@,
            Err(e) => r@ == a.failed@ + e@,
        },
{
    match status {
        Ok(_) => a.done.clone(),
        Err(e) => cat(a.failed.as_str(), e.as_str()),
    }
}

/// The answer of a power action: its program is run first, whatever comes of
/// the speeches after it; `spoken` is how the speeches went.
pub fn power_finish(a: &PowerAction, status: &Result<(), String>, spoken: &Result<(), String>) -> (r:
    String)
    ensures
        r@ == after_speech(
            match *status {
                Ok(_) => a.done@,
                Err(e) => a.failed@ + e@,
            },
            *spoken,
        ),
{
    respond(power_reply(a, status), spoken)
}

/// What a power action does next.
#[derive(Debug, PartialEq, Eq, Structural)]
pub enum PowerStep {
    /// Run the action's program.
    Run,
    /// Say the speech with this index.
    Speak(usize),
    /// Answer with `power_finish`.
    Finish,
}

/// The next step of a power action, given whether its program has been run,
/// how many speeches have been said, and whether one of them failed: the
/// program always runs first, and a failed speech only ends the speaking.
pub fn power_next(a: &PowerAction, ran: bool, said: usize, speech_failed: bool) -> (r: PowerStep)
    ensures
        !ran ==> r == PowerStep::Run,
        ran && !speech_failed && said < a.speeches@.len() ==> r == PowerStep::Speak(said),
        ran && (speech_failed || said >= a.speeches@.len()) ==> r == PowerStep::Finish,
{
    if !ran {
        PowerStep::Run
    } else if !speech_failed && said < a.speeches.len() {
        PowerStep::Speak(said)
    } else {
        PowerStep::Finish
    }
}

/// The speeches as strings.
fn speeches_of(v: Vec<&str>) -> (r: Vec<String>)
    ensures
        texts(r@) == v@.map_values(|s: &str| s@),
{
    let mut out: Vec<String> = Vec::new();
    let mut i: usize = 0;
    while i < v.len()
        invariant
            i <= v@.len(),
            out@.len() == i,
            forall|j: int| 0 <= j < i ==> #[trigger] out@[j]@ == v@[j]@,
        decreases v@.len() - i,
    {
        out.push(String::from_str(v[i]));
        i = i + 1;
    }
    assert(texts(out@) =~= v@.map_values(|s: &str| s@));
    out
}

/// Shuts the machine down, after saying so.
pub fn shutdown(p: Platform) -> (r: PowerAction)
    ensures
        p == Platform::Windows ==> power_plan(r, seq!["Are you sure you want to shut down the PC? (Assuming yes for now)"@, "Shutting down the PC."@], "shutdown"@, seq!["/s"@, "/t"@, "0"@], "Shutdown command executed."@, "Failed to execute shutdown: "@),
        p == Platform::Unix ==> power_plan(r, seq!["Are you sure you want to shut down the PC? (Assuming yes for now)"@, "Shutting down the PC."@], "shutdown"@, seq!["-h"@, "now"@], "Shutdown command executed."@, "Failed to execute shutdown: "@),
{
    let inv = match p {
        Platform::Windows => invocation("shutdown", vec!["/s", "/t", "0"]),
        Platform::Unix => invocation("shutdown", vec!["-h", "now"]),
    };
    let speeches = speeches_of(vec!["Are you sure you want to shut down the PC? (Assuming yes for now)", "Shutting down the PC."]);
    proof {
        assert(texts(speeches@) =~= seq!["Are you sure you want to shut down the PC? (Assuming yes for now)"@, "Shutting down the PC."@]);
        match p {
            Platform::Windows => assert(arg_texts(inv.args@) =~= seq!["/s"@, "/t"@, "0"@]),
            Platform::Unix => assert(arg_texts(inv.args@) =~= seq!["-h"@, "now"@]),
        }
    }
    PowerAction {
        speeches,
        invocation: inv,
        done: String::from_str("Shutdown command executed."),
        failed: String::from_str("Failed to execute shutdown: "),
    }
}

/// Restarts the machine, after saying so.
pub fn restart(p: Platform) -> (r: PowerAction)
    ensures
        p == Platform::Windows ==> power_plan(r, seq!["Restarting the system."@], "shutdown"@, seq!["/r"@, "/t"@, "0"@], "Restart command executed."@, "Failed to restart: "@),
        p == Platform::Unix ==> power_plan(r, seq!["Restarting the system."@], "shutdown"@, seq!["-r"@, "now"@], "Restart command executed."@, "Failed to restart: "@),
{
    let inv = match p {
        Platform::Windows => invocation("shutdown", vec!["/r", "/t", "0"]),
        Platform::Unix => invocation("shutdown", vec!["-r", "now"]),
    };
    let speeches = speeches_of(vec!["Restarting the system."]);
    proof {
        assert(texts(speeches@) =~= seq!["Restarting the system."@]);
        match p {
            Platform::Windows => assert(arg_texts(inv.args@) =~= seq!["/r"@, "/t"@, "0"@]),
            Platform::Unix => assert(arg_texts(inv.args@) =~= seq!["-r"@, "now"@]),
        }
    }
    PowerAction {
        speeches,
        invocation: inv,
        done: String::from_str("Restart command executed."),
        failed: String::from_str("Failed to restart: "),
    }
}

/// Hibernates the machine, after saying so.
pub fn hibernate(p: Platform) -> (r: PowerAction)
    ensures
        p == Platform::Windows ==> power_plan(r, seq!["Hibernating system."@], "shutdown"@, seq!["/h"@], "Hibernate command executed."@, "Failed to hibernate: "@),
        p == Platform::Unix ==> power_plan(r, seq!["Hibernating system."@], "systemctl"@, seq!["hibernate"@], "Hibernate command executed."@, "Failed to hibernate: "@),
{
    let inv = match p {
        Platform::Windows => invocation("shutdown", vec!["/h"]),
        Platform::Unix => invocation("systemctl", vec!["hibernate"]),
    };
    let speeches = speeches_of(vec!["Hibernating system."]);
    proof {
        assert(texts(speeches@) =~= seq!["Hibernating system."@]);
        match p {
            Platform::Windows => assert(arg_texts(inv.args@) =~= seq!["/h"@]),
            Platform::Unix => assert(arg_texts(inv.args@) =~= seq!["hibernate"@]),
        }
    }
    PowerAction {
        speeches,
        invocation: inv,
        done: String::from_str("Hibernate command executed."),
        failed: String::from_str("Failed to hibernate: "),
    }
}

/// Suspends the machine, after saying so.
pub fn sleep(p: Platform) -> (r: PowerAction)
    ensures
        p == Platform::Windows ==> power_plan(r, seq!["Putting system to sleep."@], "rundll32.exe"@, seq!["powrprof.dll,SetSuspendState"@, "0"@, "1"@, "0"@], "Sleep command executed."@, "Failed to sleep: "@),
        p == Platform::Unix ==> power_plan(r, seq!["Putting system to sleep."@], "systemctl"@, seq!["suspend"@], "Sleep command executed."@, "Failed to sleep: "@),
{
    let inv = match p {
        Platform::Windows => invocation("rundll32.exe", vec!["powrprof.dll,SetSuspendState", "0", "1", "0"]),
        Platform::Unix => invocation("systemctl", vec!["suspend"]),
    };
    let speeches = speeches_of(vec!["Putting system to sleep."]);
    proof {
        assert(texts(speeches@) =~= seq!["Putting system to sleep."@]);
        match p {
            Platform::Windows => assert(arg_texts(inv.args@) =~= seq!["powrprof.dll,SetSuspendState"@, "0"@, "1"@, "0"@]),
            Platform::Unix => assert(arg_texts(inv.args@) =~= seq!["suspend"@]),
        }
    }
    PowerAction {
        speeches,
        invocation: inv,
        done: String::from_str("Sleep command executed."),
        failed: String::from_str("Failed to sleep: "),
    }
}

/// Ends the session of the user `user`, after saying so.
pub fn logout(p: Platform, user: &str) -> (r: PowerAction)
    ensures
        p == Platform::Windows ==> power_plan(r, seq!["Logging out."@], "shutdown"@, seq!["/l"@], "Logout command executed."@, "Failed to log out: "@),
        p == Platform::Unix ==> power_plan(r, seq!["Logging out."@], "pkill"@, seq!["-KILL"@, "-u"@, user@], "Logout command executed."@, "Failed to log out: "@),
{
    let inv = match p {
        Platform::Windows => invocation("shutdown", vec!["/l"]),
        Platform::Unix => invocation("pkill", vec!["-KILL", "-u", user]),
    };
    let speeches = speeches_of(vec!["Logging out."]);
    proof {
        assert(texts(speeches@) =~= seq!["Logging out."@]);
        match p {
            Platform::Windows => assert(arg_texts(inv.args@) =~= seq!["/l"@]),
            Platform::Unix => assert(arg_texts(inv.args@) =~= seq!["-KILL"@, "-u"@, user@]),
        }
    }
    PowerAction {
        speeches,
        invocation: inv,
        done: String::from_str("Logout command executed."),
        failed: String::from_str("Failed to log out: "),
    }
}

/// The program that presses a volume key, where the platform offers one.
fn volume_key(p: Platform, up: bool) -> (r: Option<Invocation>)
    ensures
        p == Platform::Unix <==> r is None,
        r matches Some(inv) ==> runs(
            inv,
            "powershell"@,
            seq![
                "-Command"@,
                if up {
                    "(New-Object -ComObject WScript.Shell).SendKeys([char]175)"@
                } else {
                    "(New-Object -ComObject WScript.Shell).SendKeys([char]174)"@
                },
            ],
        ),
{
    match p {
        Platform::Windows => {
            let script = if up {
                "(New-Object -ComObject WScript.Shell).SendKeys([char]175)"
            } else {
                "(New-Object -ComObject WScript.Shell).SendKeys([char]174)"
            };
            let inv = invocation("powershell", vec!["-Command", script]);
            assert(arg_texts(inv.args@) =~= seq!["-Command"@, script@]);
            Some(inv)
        },
        Platform::Unix => None,
    }
}

/// The program that `volume_up` runs, where the platform offers one.
pub fn volume_up(p: Platform) -> (r: Option<Invocation>)
    ensures
        p == Platform::Unix <==> r is None,
        r matches Some(inv) ==> runs(
            inv,
            "powershell"@,
            seq!["-Command"@, "(New-Object -ComObject WScript.Shell).SendKeys([char]175)"@],
        ),
{
    volume_key(p, true)
}

/// The program that `volume_down` runs, where the platform offers one.
pub fn volume_down(p: Platform) -> (r: Option<Invocation>)
    ensures
        p == Platform::Unix <==> r is None,
        r matches Some(inv) ==> runs(
            inv,
            "powershell"@,
            seq!["-Command"@, "(New-Object -ComObject WScript.Shell).SendKeys([char]174)"@],
        ),
{
    volume_key(p, false)
}

/// How a volume command ends: `status` is the key program's outcome, or
/// nothing where the platform offers no such program.
pub fn volume_changed(up: bool, status: &Option<Result<(), String>>) -> (r: Settled)
    ensures
        match (*status, r) {
            (None, Settled::Announce(a)) => a.speech@ == "Volume control not supported on this OS yet."@
                && a.reply@ == a.speech@,
            (Some(Ok(_)), Settled::Announce(a)) => a.speech@ == (if up {
                "Volume increased."@
            } else {
                "Volume decreased."@
            }) && a.reply@ == a.speech@,
            (Some(Err(e)), Settled::Answer(t)) => t@ == (if up {
                "Failed to increase volume: "@
            } else {
                "Failed to decrease volume: "@
            }) + e@,
            _ => false,
        },
{
    match status {
        None => Settled::Announce(echo("Volume control not supported on this OS yet.")),
        Some(Ok(_)) => Settled::Announce(
            echo(
                if up {
                    "Volume increased."
                } else {
                    "Volume decreased."
                },
            ),
        ),
        Some(Err(e)) => Settled::Answer(
            cat(
                if up {
                    "Failed to increase volume: "
                } else {
                    "Failed to decrease volume: "
                },
                e.as_str(),
            ),
        ),
    }
}

} // verus!
