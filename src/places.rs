//! The handlers about where the process stands and what the system reports:
//! directories, history, the clock, memory, disks and uptime.
use vstd::prelude::*;
use crate::numbers::{dec, decimal};
use crate::protocol::{cat, cat3, echo, or_note, unless_empty, Announcement, Platform, Settled};
use crate::words::texts;

verus! {

/// How `go_home` ends: `entered` is the home directory, shown as text, when
/// it was found and made the working directory.
pub fn go_home(entered: &Option<String>) -> (r: Settled)
    ensures
        match (*entered, r) {
            (Some(h), Settled::Announce(a)) => a.speech@ == "Home directory: "@ + h@ && a.reply@
                == a.speech@,
            (None, Settled::Answer(t)) => t@ == "Failed to change to home directory."@,
            _ => false,
        },
{
    match entered {
        Some(h) => Settled::Announce(echo(cat("Home directory: ", h.as_str()).as_str())),
        None => Settled::Answer(String::from_str("Failed to change to home directory.")),
    }
}

/// The root directory of the platform.
pub fn root_directory(p: Platform) -> (r: &'static str)
    ensures
        p == Platform::Windows ==> r@ == "C:\\"@,
        p == Platform::Unix ==> r@ == "/"@,
{
    match p {
        Platform::Windows => "C:\\",
        Platform::Unix => "/",
    }
}

/// How `root_directory` ends, given whether the root became the working
/// directory.
pub fn root_entered(p: Platform, changed: bool) -> (r: Settled)
    ensures
        match r {
            Settled::Announce(a) => changed && a.speech@ == "You are now in the root directory."@
                && a.reply@ == (if p == Platform::Windows {
                "C:\\"@
            } else {
                "/"@
            }),
            Settled::Answer(t) => !changed && t@ == "Failed to change to root directory."@,
        },
{
    if changed {
        Settled::Announce(
            Announcement {
                speech: String::from_str("You are now in the root directory."),
                reply: String::from_str(root_directory(p)),
            },
        )
    } else {
        Settled::Answer(String::from_str("Failed to change to root directory."))
    }
}

/// The directory under the home directory that `go_my_directory` keeps.
pub fn my_directory() -> (r: &'static str)
    ensures
        r@ == "my_directory"@,
{
    "my_directory"
}

/// What happened on the way to the personal directory.
#[derive(Debug)]
pub enum PersonalDir {
    /// No home directory is known.
    NoHome,
    /// The directory could not be created.
    CreateFailed,
    /// The directory exists but could not be entered.
    EnterFailed,
    /// The directory, shown as text, is now the working directory.
    Entered(String),
}

/// How `go_my_directory` ends.
pub fn go_my_directory(step: &PersonalDir) -> (r: Settled)
    ensures
        match (*step, r) {
            (PersonalDir::Entered(d), Settled::Announce(a)) => a.speech@
                == "You are now in your personal directory: "@ + d@ && a.reply@ == a.speech@,
            (PersonalDir::CreateFailed, Settled::Answer(t)) => t@
                == "Failed to create your personal directory."@,
            (PersonalDir::NoHome, Settled::Answer(t)) => t@
                == "Failed to navigate to your personal directory."@,
            (PersonalDir::EnterFailed, Settled::Answer(t)) => t@
                == "Failed to navigate to your personal directory."@,
            _ => false,
        },
{
    match step {
        PersonalDir::Entered(d) => Settled::Announce(
            echo(cat("You are now in your personal directory: ", d.as_str()).as_str()),
        ),
        PersonalDir::CreateFailed => Settled::Answer(
            String::from_str("Failed to create your personal directory."),
        ),
        _ => Settled::Answer(String::from_str("Failed to navigate to your personal directory.")),
    }
}

/// How `current_directory` ends, given the working directory as text, if it
/// could be read.
pub fn current_directory(cwd: &Option<String>) -> (r: Settled)
    ensures
        match (*cwd, r) {
            (Some(d), Settled::Announce(a)) => a.speech@ == "You are in "@ + d@ && a.reply@
                == a.speech@,
            (None, Settled::Answer(t)) => t@ == "Failed to get current directory."@,
            _ => false,
        },
{
    match cwd {
        Some(d) => Settled::Announce(echo(cat("You are in ", d.as_str()).as_str())),
        None => Settled::Answer(String::from_str("Failed to get current directory.")),
    }
}

/// Lines joined by line breaks, with none after the last.
pub open spec fn lines_joined(ls: Seq<Seq<char>>) -> Seq<char>
    decreases ls.len(),
{
    if ls.len() == 0 {
        Seq::empty()
    } else if ls.len() == 1 {
        ls[0]
    } else {
        lines_joined(ls.drop_last()) + seq!['\n'] + ls.last()
    }
}

/// Lines joined by line breaks.
pub fn join_lines(ls: &Vec<String>) -> (r: String)
    ensures
        r@ == lines_joined(texts(ls@)),
{
    let mut out = String::new();
    let mut i: usize = 0;
    while i < ls.len()
        invariant
            i <= ls@.len(),
            out@ == lines_joined(texts(ls@).subrange(0, i as int)),
        decreases ls@.len() - i,
    {
        let ghost prev = texts(ls@).subrange(0, i as int);
        let ghost next = texts(ls@).subrange(0, i + 1);
        assert(next.drop_last() =~= prev);
        if i > 0 {
            out.append("\n");
        }
        out.append(ls[i].as_str());
        proof {
            reveal_strlit("\n");
            if i == 0 {
                assert(out@ =~= next[0]);
            } else {
                assert(out@ =~= lines_joined(prev) + seq!['\n'] + next.last());
            }
        }
        i = i + 1;
    }
    assert(texts(ls@).subrange(0, ls@.len() as int) =~= texts(ls@));
    out
}

/// How `list_files` ends, given the names in the working directory, if it
/// could be read.
pub fn list_files(names: &Option<Vec<String>>) -> (r: Settled)
    ensures
        match (*names, r) {
            (Some(v), Settled::Announce(a)) => a.speech@
                == "The files in the current directory are listed."@ && a.reply@ == or_note(
                lines_joined(texts(v@)),
                "The current directory is empty."@,
            ) && a.reply@.len() > 0,
            (None, Settled::Answer(t)) => t@ == "Failed to read directory."@,
            _ => false,
        },
{
    proof {
        reveal_strlit("The current directory is empty.");
    }
    match names {
        Some(v) => Settled::Announce(
            Announcement {
                speech: String::from_str("The files in the current directory are listed."),
                reply: unless_empty(join_lines(v), "The current directory is empty."),
            },
        ),
        None => Settled::Answer(String::from_str("Failed to read directory.")),
    }
}

/// What `command_history` says and answers, given the history file's text,
/// if it could be read.
pub fn command_history(history: &Option<String>) -> (r: Announcement)
    ensures
        match *history {
            Some(h) => r.speech@ == "Command history displayed."@ && r.reply@ == or_note(
                h@,
                "Command history is empty."@,
            ),
            None => r.speech@ == "No command history found."@ && r.reply@ == r.speech@,
        },
{
    match history {
        Some(h) => Announcement {
            speech: String::from_str("Command history displayed."),
            reply: unless_empty(h.clone(), "Command history is empty."),
        },
        None => echo("No command history found."),
    }
}

/// What `current_day` says and answers, given the weekday's name.
pub fn current_day(day: &str) -> (r: Announcement)
    ensures
        r.speech@ == "Today is "@ + day@,
        r.reply@ == day@,
{
    Announcement { speech: cat("Today is ", day), reply: String::from_str(day) }
}

/// What `current_date` says and answers, given the date as text.
pub fn current_date(date: &str) -> (r: Announcement)
    ensures
        r.speech@ == "Today's date is "@ + date@,
        r.reply@ == date@,
{
    Announcement { speech: cat("Today's date is ", date), reply: String::from_str(date) }
}

/// What `current_time` says and answers, given the time as text.
pub fn current_time(time: &str) -> (r: Announcement)
    ensures
        r.speech@ == time@,
        r.reply@ == time@,
{
    echo(time)
}

/// Bytes in a mebibyte.
pub const MIB: u64 = 1048576;

/// Bytes in a gibibyte.
pub const GIB: u64 = 1073741824;

/// The memory report, in whole mebibytes.
pub open spec fn memory_text(total: nat, used: nat, free: nat) -> Seq<char> {
    "Memory: Total: "@ + dec(total / MIB as nat) + " MB, Used: "@ + dec(used / MIB as nat)
        + " MB, Free: "@ + dec(free / MIB as nat) + " MB"@
}

/// What `memory_usage` says and answers, given the byte counts.
pub fn memory_usage(total: u64, used: u64, free: u64) -> (r: Announcement)
    ensures
        r.speech@ == "Here is the memory usage report."@,
        r.reply@ == memory_text(total as nat, used as nat, free as nat),
{
    let mut t = cat("Memory: Total: ", decimal(total / MIB).as_str());
    t.append(" MB, Used: ");
    t.append(decimal(used / MIB).as_str());
    t.append(" MB, Free: ");
    t.append(decimal(free / MIB).as_str());
    t.append(" MB");
    Announcement { speech: String::from_str("Here is the memory usage report."), reply: t }
}

/// What `free_memory` says and answers, given the free bytes.
pub fn free_memory(free: u64) -> (r: Announcement)
    ensures
        r.speech@ == "Free Memory: "@ + dec(free as nat / MIB as nat) + " MB"@,
        r.reply@ == r.speech@,
{
    let t = cat3("Free Memory: ", decimal(free / MIB).as_str(), " MB");
    echo(t.as_str())
}

/// What `swap_memory` says and answers, given the swap bytes in use.
pub fn swap_memory(used: u64) -> (r: Announcement)
    ensures
        r.speech@ == "Swap Memory: "@ + dec(used as nat / MIB as nat) + " MB"@,
        r.reply@ == r.speech@,
{
    let t = cat3("Swap Memory: ", decimal(used / MIB).as_str(), " MB");
    echo(t.as_str())
}

/// One disk as the system reports it.
#[derive(Debug)]
pub struct DiskInfo {
    pub mount_point: String,
    pub total: u64,
    pub available: u64,
}

/// The report line of one disk, in whole gibibytes; what is used is what is
/// not available, and nothing where the disk reports more available than in
/// total.
pub open spec fn disk_line(d: DiskInfo) -> Seq<char> {
    let used: nat = if d.available <= d.total {
        (d.total - d.available) as nat
    } else {
        0
    };
    "Disk "@ + d.mount_point@ + ": Total: "@ + dec(d.total as nat / GIB as nat) + " GB, Used: "@
        + dec(used / GIB as nat) + " GB, Free: "@ + dec(d.available as nat / GIB as nat) + " GB"@
}

/// The report line of one disk.
pub fn disk_report_line(d: &DiskInfo) -> (r: String)
    ensures
        r@ == disk_line(*d),
{
    let used = if d.available <= d.total {
        d.total - d.available
    } else {
        0
    };
    let mut t = cat3("Disk ", d.mount_point.as_str(), ": Total: ");
    t.append(decimal(d.total / GIB).as_str());
    t.append(" GB, Used: ");
    t.append(decimal(used / GIB).as_str());
    t.append(" GB, Free: ");
    t.append(decimal(d.available / GIB).as_str());
    t.append(" GB");
    t
}

/// What `disk_usage` says and answers: one line per disk.
pub fn disk_usage(disks: &Vec<DiskInfo>) -> (r: Announcement)
    ensures
        r.speech@ == "Here is the disk usage report."@,
        r.reply@ == or_note(
            lines_joined(disks@.map_values(|d: DiskInfo| disk_line(d))),
            "No disks found."@,
        ),
        r.reply@.len() > 0,
{
    let mut lines: Vec<String> = Vec::new();
    let mut i: usize = 0;
    while i < disks.len()
        invariant
            i <= disks@.len(),
            lines@.len() == i,
            forall|j: int| 0 <= j < i ==> #[trigger] lines@[j]@ == disk_line(disks@[j]),
        decreases disks@.len() - i,
    {
        lines.push(disk_report_line(&disks[i]));
        i = i + 1;
    }
    proof {
        reveal_strlit("No disks found.");
    }
    let reply = unless_empty(join_lines(&lines), "No disks found.");
    assert(texts(lines@) =~= disks@.map_values(|d: DiskInfo| disk_line(d)));
    Announcement { speech: String::from_str("Here is the disk usage report."), reply }
}

/// The uptime report: whole hours, then the minutes and seconds left over.
pub open spec fn uptime_text(secs: nat) -> Seq<char> {
    "Uptime: "@ + dec(secs / 3600) + "h "@ + dec((secs / 60) % 60) + "m "@ + dec(secs % 60) + "s"@
}

/// What `get_uptime` says and answers, given the seconds since boot.
pub fn get_uptime(secs: u64) -> (r: Announcement)
    ensures
        r.speech@ == uptime_text(secs as nat),
        r.reply@ == r.speech@,
{
    let mut t = cat("Uptime: ", decimal(secs / 3600).as_str());
    t.append("h ");
    t.append(decimal((secs / 60) % 60).as_str());
    t.append("m ");
    t.append(decimal(secs % 60).as_str());
    t.append("s");
    echo(t.as_str())
}

} // verus!
