use voice_backend::calendar::{calendar_layout, generate_calendar, show_calendar};
use voice_backend::files::{
    code_ran, compile_code, compiled, create_file, create_symlink, delete_file, file_created,
    file_deleted, file_listing, file_moved, file_opened, file_renamed, move_file_or_folder,
    name_matches, open_failed, open_file, print_file_content, rename_file_or_folder, run_code,
    search_file_or_folder, search_result, strip_suffixes, symlink_made,
};
use voice_backend::numbers::{decimal, signed_decimal};
use voice_backend::places::{
    command_history, current_day, disk_usage, get_uptime, go_home, go_my_directory, list_files,
    memory_usage, root_entered, DiskInfo, PersonalDir,
};
use voice_backend::protocol::{
    command_output, respond, speech, speech_failure, Platform, ProcessOutput, RunOutcome, Settled,
};
use voice_backend::replies::{
    exit, hello, help, logout, navigate_directories, power_finish, power_next, power_reply, restart,
    PowerStep, shutdown,
    volume_changed,
    volume_up, who_created_you,
};
use voice_backend::utilities::{df_command, list_folders, list_users, ps_command};

fn output(success: bool, stdout: &str, stderr: &str) -> RunOutcome {
    RunOutcome::Finished(ProcessOutput { success, stdout: stdout.to_string(), stderr: stderr.to_string() })
}

#[test]
fn greeting_is_spoken_then_answered() {
    let a = hello();
    assert_eq!(a.speech, "Hello!");
    assert_eq!(respond(a.reply, &Ok(())), "Hello!");
    let b = who_created_you();
    assert_eq!(respond(b.reply, &Err("no espeak".to_string())), "Error: no espeak");
}

#[test]
fn speech_failure_replaces_answer() {
    assert_eq!(speech_failure("boom"), "Error: boom");
    assert_eq!(respond("Goodbye!".to_string(), &Err("x".to_string())), "Error: x");
    assert_eq!(exit().speech, "Goodbye!");
}

#[test]
fn help_lists_commands() {
    let a = help();
    assert_eq!(a.speech, "Here are the available commands.");
    assert!(a.reply.starts_with("Available commands:\nhello\nwho_created_you\nhelp\n"));
    assert!(a.reply.ends_with("\nsleep\ncommand_history"));
}

#[test]
fn navigation_is_refused() {
    assert_eq!(navigate_directories(), "Error: Interactive navigation not supported via API yet.");
}

#[test]
fn utility_command_lines() {
    let j = ps_command(Platform::Unix);
    assert_eq!(j.invocation.program, "ps");
    assert_eq!(j.invocation.args, vec!["aux".to_string()]);
    assert_eq!(j.speech.as_deref(), Some("Here is the list of running processes."));
    let j = ps_command(Platform::Windows);
    assert_eq!(j.invocation.program, "tasklist");
    assert!(j.invocation.args.is_empty());
    let j = df_command(Platform::Unix);
    assert_eq!(j.invocation.args, vec!["-h".to_string()]);
    let j = list_users(Platform::Unix);
    assert_eq!(j.invocation.program, "cut");
    assert_eq!(j.invocation.args, vec!["-d:", "-f1", "/etc/passwd"]);
    assert!(j.speech.is_none());
    let j = list_folders(Platform::Windows);
    assert_eq!(j.invocation.args, vec!["/C", "dir /AD /B"]);
}

#[test]
fn process_outcomes_read_as_text() {
    assert_eq!(command_output(&output(true, "a\nb\n", "")), "a\nb\n");
    assert_eq!(command_output(&output(true, "USER  PID \t\nroot  1   \n", "")), "USER  PID\nroot  1\n");
    assert_eq!(command_output(&output(false, "", "no such unit  \r\n")), "Command failed with error: no such unit\n");
    assert_eq!(command_output(&output(false, "", "bad")), "Command failed with error: bad");
    assert_eq!(command_output(&output(true, "", "")), "Command completed with no output.");
    assert_eq!(command_output(&output(true, " \n", "")), "\n");
    assert_eq!(command_output(&RunOutcome::TimedOut), "Command timed out.");
    assert_eq!(compiled("m", &RunOutcome::TimedOut), "Compilation timed out.");
    assert_eq!(code_ran(&RunOutcome::TimedOut), "Execution timed out.");
    assert_eq!(command_output(&RunOutcome::NotStarted("not found".to_string())), "Failed to execute command: not found");
}

#[test]
fn failed_delete_names_the_file_and_does_nothing_else() {
    let name = delete_file("missing dot txt").unwrap();
    assert_eq!(name, "missing.txt");
    let r = file_deleted(&name, &Err("No such file or directory (os error 2)".to_string()));
    assert!(r.contains("missing.txt"));
    assert_eq!(r, "Failed to delete file 'missing.txt': No such file or directory (os error 2)");
    assert_eq!(file_deleted("a.txt", &Ok(())), "File 'a.txt' deleted successfully.");
    assert_eq!(delete_file("  ").unwrap_err(), "Error: Please provide a valid file name.");
}

#[test]
fn create_file_answers() {
    assert_eq!(create_file("notes dot md").unwrap(), "notes.md");
    assert_eq!(create_file("").unwrap_err(), "Error: Please provide a valid file name.");
    assert_eq!(file_created("n.md", &Ok(())), "File 'n.md' created successfully.");
    assert_eq!(file_created("n.md", &Err("denied".to_string())), "Failed to create file 'n.md': denied");
}

#[test]
fn open_file_answers() {
    assert_eq!(open_file(Platform::Unix, "").unwrap_err(), "Error: Please provide a file name.");
    assert_eq!(open_file(Platform::Unix, " dot ").unwrap().name, ".");
    assert_eq!(open_file(Platform::Unix, "  ").unwrap_err(), "Error: Please provide a file name.");
    let o = open_file(Platform::Unix, "report dot txt").unwrap();
    assert_eq!(o.name, "report.txt");
    assert_eq!(o.invocation.program, "xdg-open");
    assert_eq!(o.invocation.args, vec!["report.txt"]);
    let o = open_file(Platform::Windows, "a.txt").unwrap();
    assert_eq!(o.invocation.args, vec!["/C", "start", "", "a.txt"]);
    match file_opened("a.txt", &Ok(())) {
        Settled::Announce(a) => assert_eq!(a.reply, "Opening a.txt"),
        Settled::Answer(_) => panic!("expected an announcement"),
    }
    match file_opened("a.txt", &Err("gone".to_string())) {
        Settled::Answer(t) => assert_eq!(t, "Failed to open file: gone"),
        Settled::Announce(_) => panic!("expected an answer"),
    }
}

#[test]
fn move_and_rename_split_at_first_space() {
    let (s, d) = move_file_or_folder("a.txt b dot txt").unwrap();
    assert_eq!(s, "a.txt");
    assert_eq!(d, "b.txt");
    let (s, d) = move_file_or_folder("a dot txt b").unwrap();
    assert_eq!(s, "a");
    assert_eq!(d, ".txt b");
    assert_eq!(
        move_file_or_folder("single").unwrap_err(),
        "Error: Please provide source and destination."
    );
    assert_eq!(file_moved("a", "b", false, &Ok(())), "Error: Source 'a' does not exist.");
    assert_eq!(file_moved("a", "b", true, &Ok(())), "Moved 'a' to 'b'.");
    assert_eq!(file_moved("a", "b", true, &Err("x".to_string())), "Failed to move 'a': x");
    assert_eq!(
        rename_file_or_folder("x").unwrap_err(),
        "Error: Please provide both old and new file names."
    );
    let (o, n) = rename_file_or_folder("old new").unwrap();
    assert_eq!(file_renamed(&o, &n, &Ok(())), "Renamed: old -> new");
    assert_eq!(file_renamed(&o, &n, &Err("busy".to_string())), "Failed to rename 'old': busy");
}

#[test]
fn compile_picks_compiler_by_extension() {
    let b = compile_code("main dot c").unwrap();
    assert_eq!(b.invocation.program, "gcc");
    assert_eq!(b.invocation.args, vec!["main.c", "-o", "main"]);
    assert_eq!(b.output_name, "main");
    let b = compile_code("prog dot cpp").unwrap();
    assert_eq!(b.invocation.program, "g++");
    assert_eq!(b.invocation.args, vec!["prog.cpp", "-o", "prog"]);
    let b = compile_code("lib dot rs").unwrap();
    assert_eq!(b.invocation.program, "rustc");
    assert_eq!(b.invocation.args, vec!["lib.rs"]);
    assert_eq!(b.output_name, "lib.rs");
    let b = compile_code("tool dot py").unwrap();
    assert_eq!(b.invocation.args, vec!["-m", "py_compile", "tool.py"]);
    assert_eq!(compile_code("").unwrap_err(), "Error: Please provide a file name to compile.");
    assert_eq!(compile_code("notes dot md").unwrap_err(), "Error: Unsupported file format.");
    assert_eq!(compiled("main", &output(true, "", "")), "Compilation successful. Executable: main");
    assert_eq!(compiled("main", &output(false, "", "syntax")), "Compilation failed: syntax");
    assert_eq!(compiled("main", &RunOutcome::NotStarted("no gcc".to_string())), "Failed to compile: no gcc");
    assert_eq!(strip_suffixes("a.c.c", ".c"), "a");
}

#[test]
fn run_code_answers() {
    let inv = run_code("main dot c");
    assert_eq!(inv.program, "./main");
    assert!(inv.args.is_empty());
    let inv = run_code("tool dot py");
    assert_eq!(inv.program, "python3");
    assert_eq!(inv.args, vec!["tool.py"]);
    assert_eq!(code_ran(&output(true, "42\n", "")), "Output:\n42\n");
    assert_eq!(code_ran(&output(false, "", "crash")), "Execution failed: crash");
    assert_eq!(code_ran(&RunOutcome::NotStarted("denied".to_string())), "Error running the program: denied");
}

#[test]
fn print_file_lists_lines() {
    assert_eq!(print_file_content("a dot txt").unwrap(), "a.txt");
    assert_eq!(print_file_content("").unwrap_err(), "Error: Please provide a file name.");
    assert_eq!(file_listing(&vec!["one".to_string(), "two".to_string()]), "one\ntwo\n");
    assert_eq!(file_listing(&vec![]), "The file is empty.");
    assert_eq!(open_failed("a.txt", "missing"), "Failed to open file 'a.txt': missing");
}

#[test]
fn symlink_answers() {
    assert_eq!(
        create_symlink(Platform::Unix, "only").unwrap_err(),
        "Error: Please provide source and target (e.g., 'source target')."
    );
    let l = create_symlink(Platform::Unix, "src  dst extra").unwrap();
    assert_eq!(l.invocation.program, "ln");
    assert_eq!(l.invocation.args, vec!["-s", "src", "dst"]);
    let l = create_symlink(Platform::Unix, "notes dot txt link dot txt").unwrap();
    assert_eq!(l.invocation.args, vec!["-s", "notes.txt", "link.txt"]);
    let l = create_symlink(Platform::Windows, "src dst").unwrap();
    assert_eq!(l.invocation.args, vec!["/C", "mklink", "dst", "src"]);
    match symlink_made("src", "dst", &Ok(())) {
        Settled::Announce(a) => assert_eq!(a.reply, "Created symlink from src to dst"),
        Settled::Answer(_) => panic!("expected an announcement"),
    }
}

#[test]
fn search_answers() {
    assert_eq!(search_file_or_folder("report dot txt"), "report.txt");
    assert!(name_matches("old_report.txt.bak", "report.txt"));
    assert!(!name_matches("report", "report.txt"));
    assert!(name_matches("x", ""));
    assert_eq!(search_result("a", &Some("./b/a".to_string())), "Found: ./b/a");
    assert_eq!(search_result("a", &None), "'a' not found.");
}

#[test]
fn power_actions() {
    let a = shutdown(Platform::Unix);
    assert_eq!(a.speeches.len(), 2);
    assert_eq!(a.invocation.program, "shutdown");
    assert_eq!(a.invocation.args, vec!["-h", "now"]);
    assert_eq!(power_reply(&a, &Ok(())), "Shutdown command executed.");
    assert_eq!(power_reply(&a, &Err("denied".to_string())), "Failed to execute shutdown: denied");
    let r = restart(Platform::Unix);
    assert_eq!(r.invocation.args, vec!["-r", "now"]);
    assert_eq!(power_finish(&r, &Ok(()), &Ok(())), "Restart command executed.");
    assert_eq!(power_finish(&r, &Ok(()), &Err("no espeak".to_string())), "Error: no espeak");
    assert_eq!(power_next(&a, false, 0, false), PowerStep::Run);
    assert_eq!(power_next(&a, true, 0, false), PowerStep::Speak(0));
    assert_eq!(power_next(&a, true, 1, false), PowerStep::Speak(1));
    assert_eq!(power_next(&a, true, 2, false), PowerStep::Finish);
    assert_eq!(power_next(&a, true, 1, true), PowerStep::Finish);
    let l = logout(Platform::Unix, "alice");
    assert_eq!(l.invocation.args, vec!["-KILL", "-u", "alice"]);
}

#[test]
fn volume_answers() {
    assert!(volume_up(Platform::Unix).is_none());
    assert_eq!(volume_up(Platform::Windows).unwrap().program, "powershell");
    match volume_changed(true, &None) {
        Settled::Announce(a) => assert_eq!(a.reply, "Volume control not supported on this OS yet."),
        Settled::Answer(_) => panic!("expected an announcement"),
    }
    match volume_changed(false, &Some(Err("x".to_string()))) {
        Settled::Answer(t) => assert_eq!(t, "Failed to decrease volume: x"),
        Settled::Announce(_) => panic!("expected an answer"),
    }
}

#[test]
fn directory_answers() {
    match go_home(&Some("/home/a".to_string())) {
        Settled::Announce(a) => assert_eq!(a.reply, "Home directory: /home/a"),
        Settled::Answer(_) => panic!("expected an announcement"),
    }
    match go_home(&None) {
        Settled::Answer(t) => assert_eq!(t, "Failed to change to home directory."),
        Settled::Announce(_) => panic!("expected an answer"),
    }
    match root_entered(Platform::Unix, true) {
        Settled::Announce(a) => assert_eq!(a.reply, "/"),
        Settled::Answer(_) => panic!("expected an announcement"),
    }
    match go_my_directory(&PersonalDir::CreateFailed) {
        Settled::Answer(t) => assert_eq!(t, "Failed to create your personal directory."),
        Settled::Announce(_) => panic!("expected an answer"),
    }
    match list_files(&Some(vec!["a".to_string(), "b".to_string()])) {
        Settled::Announce(a) => assert_eq!(a.reply, "a\nb"),
        Settled::Answer(_) => panic!("expected an announcement"),
    }
    match list_files(&Some(vec![])) {
        Settled::Announce(a) => assert_eq!(a.reply, "The current directory is empty."),
        Settled::Answer(_) => panic!("expected an announcement"),
    }
    assert_eq!(command_history(&Some(String::new())).reply, "Command history is empty.");
    let h = command_history(&None);
    assert_eq!(h.reply, "No command history found.");
    assert_eq!(current_day("Monday").speech, "Today is Monday");
}

#[test]
fn system_reports() {
    assert_eq!(decimal(0), "0");
    assert_eq!(decimal(1234567), "1234567");
    assert_eq!(signed_decimal(-45), "-45");
    assert_eq!(signed_decimal(i32::MIN), "-2147483648");
    assert_eq!(get_uptime(3 * 3600 + 25 * 60 + 7).reply, "Uptime: 3h 25m 7s");
    assert_eq!(get_uptime(59).reply, "Uptime: 0h 0m 59s");
    let m = memory_usage(16 * 1048576 * 1024, 5 * 1048576 + 10, 3 * 1048576);
    assert_eq!(m.reply, "Memory: Total: 16384 MB, Used: 5 MB, Free: 3 MB");
    assert_eq!(disk_usage(&vec![]).reply, "No disks found.");
    let d = disk_usage(&vec![
        DiskInfo { mount_point: "/".to_string(), total: 100 * 1073741824, available: 40 * 1073741824 },
        DiskInfo { mount_point: "/boot".to_string(), total: 1073741824, available: 2 * 1073741824 },
    ]);
    assert_eq!(
        d.reply,
        "Disk /: Total: 100 GB, Used: 60 GB, Free: 40 GB\nDisk /boot: Total: 1 GB, Used: 0 GB, Free: 2 GB"
    );
}

#[test]
fn calendar_of_february_2024() {
    let c = generate_calendar(2024, 2).unwrap();
    let expected = format!(
        "\n   February 2024\nSu Mo Tu We Th Fr Sa\n{} 1  2  3 \n 4  5  6  7  8  9 10 \n11 12 13 14 15 16 17 \n18 19 20 21 22 23 24 \n25 26 27 28 29 \n",
        " ".repeat(12)
    );
    assert_eq!(c, expected);
}

#[test]
fn calendar_rejects_bad_month() {
    assert!(generate_calendar(2024, 0).is_none());
    assert!(generate_calendar(2024, 13).is_none());
    assert_eq!(generate_calendar(2023, 4).unwrap().matches('\n').count(), 9);
}

#[test]
fn calendar_layout_exact() {
    assert_eq!(
        calendar_layout("May", 2021, 6, 31),
        "\n   May 2021\nSu Mo Tu We Th Fr Sa\n                   1 \n 2  3  4  5  6  7  8 \n 9 10 11 12 13 14 15 \n16 17 18 19 20 21 22 \n23 24 25 26 27 28 29 \n30 31 \n"
    );
    let a = show_calendar("May", 2021, "cal".to_string());
    assert_eq!(a.speech, "Here is the calendar for May 2021");
}

#[test]
fn speech_command_lines() {
    let s = speech(Platform::Unix, "it's done");
    assert_eq!(s.program, "espeak");
    assert_eq!(s.args, vec!["it's done"]);
    let s = speech(Platform::Windows, "it's'); Remove-Item x; ('");
    assert_eq!(s.program, "powershell");
    assert_eq!(
        s.args[1],
        "Add-Type -AssemblyName System.Speech; (New-Object System.Speech.Synthesis.SpeechSynthesizer).Speak('it''s''); Remove-Item x; (''')"
    );
}

#[test]
fn calendar_of_september_2024() {
    assert_eq!(
        generate_calendar(2024, 9).unwrap(),
        "\n   September 2024\nSu Mo Tu We Th Fr Sa\n 1  2  3  4  5  6  7 \n 8  9 10 11 12 13 14 \n15 16 17 18 19 20 21 \n22 23 24 25 26 27 28 \n29 30 \n"
    );
}

fn weekday_formula(y: i64, m: i64, d: i64) -> i64 {
    let t = [0, 3, 2, 5, 0, 3, 5, 1, 4, 6, 2, 4];
    let y = if m < 3 { y - 1 } else { y };
    (y + y.div_euclid(4) - y.div_euclid(100) + y.div_euclid(400) + t[(m - 1) as usize] + d).rem_euclid(7)
}

#[test]
fn calendar_weekdays_and_lengths_match_the_rule() {
    for year in (-2001..=-1990).chain(1895..=2105).chain(262130..=262142) {
        for month in 1..=12u32 {
            let c = generate_calendar(year, month).unwrap();
            let first_row = c.split('\n').nth(3).unwrap();
            let blanks = (first_row.len() - first_row.trim_start().len() + 1 - 2) / 3;
            assert_eq!(blanks as i64, weekday_formula(year as i64, month as i64, 1), "{} {}", year, month);
            let leap = year % 4 == 0 && (year % 100 != 0 || year % 400 == 0);
            let days = match month {
                2 => if leap { 29 } else { 28 },
                4 | 6 | 9 | 11 => 30,
                _ => 31,
            };
            assert!(c.ends_with(&format!("{} \n", days)), "{} {}", year, month);
        }
    }
    assert!(generate_calendar(262143, 1).is_none());
    assert!(generate_calendar(-262144, 1).is_none());
    assert!(generate_calendar(-262143, 1).is_some());
}
