//! The handlers that work on files: the name each one acts on, the program
//! it runs, and how it answers once the file system has had its say.
use vstd::prelude::*;
use crate::protocol::{
    arg_texts, cat, cat3, echo, or_note, unless_empty, invocation, runs, Invocation, Platform,
    ProcessOutput, RunOutcome, Settled,
};
use crate::sanitize::{clean_filename, sanitized};
use crate::words::{same_text, split_words, texts, words};

verus! {

/// `s` ends with `suf`.
pub open spec fn ends_with(s: Seq<char>, suf: Seq<char>) -> bool {
    s.len() >= suf.len() && s.subrange(s.len() - suf.len(), s.len() as int) == suf
}

/// `s` with `suf` taken off its end as often as it ends with it.
pub open spec fn strip_all(s: Seq<char>, suf: Seq<char>) -> Seq<char>
    decreases s.len(),
{
    if suf.len() > 0 && ends_with(s, suf) {
        strip_all(s.subrange(0, s.len() - suf.len()), suf)
    } else {
        s
    }
}

/// The name that a source file's program is built under: the file name
/// without its trailing ".c", then without its trailing ".cpp".
pub open spec fn build_name(f: Seq<char>) -> Seq<char> {
    strip_all(strip_all(f, ".c"@), ".cpp"@)
}

/// `needle` occurs in `hay`.
pub open spec fn contains_text(hay: Seq<char>, needle: Seq<char>) -> bool {
    exists|i: int| 0 <= i <= hay.len() - needle.len() && #[trigger] hay.subrange(i, i + needle.len()) == needle
}

/// `i` is where the first space of `s` stands.
pub open spec fn first_space_at(s: Seq<char>, i: int) -> bool {
    0 <= i < s.len() && s[i] == ' ' && forall|j: int| 0 <= j < i ==> s[j] != ' '
}

/// Whether `s` ends with `suf`.
pub fn ends_with_text(s: &str, suf: &str) -> (r: bool)
    ensures
        r == ends_with(s@, suf@),
{
    let n = s.unicode_len();
    let m = suf.unicode_len();
    if n < m {
        return false;
    }
    same_text(s.substring_char(n - m, n), suf)
}

/// `s` with `suf` taken off its end as often as it ends with it.
pub fn strip_suffixes(s: &str, suf: &str) -> (r: String)
    ensures
        r@ == strip_all(s@, suf@),
{
    let n = s.unicode_len();
    let m = suf.unicode_len();
    let mut k: usize = n;
    assert(s@.subrange(0, n as int) =~= s@);
    if m > 0 {
        while k >= m && same_text(s.substring_char(k - m, k), suf)
            invariant
                n == s@.len(),
                m == suf@.len(),
                m > 0,
                k <= n,
                strip_all(s@, suf@) == strip_all(s@.subrange(0, k as int), suf@),
            decreases k,
        {
            let ghost t = s@.subrange(0, k as int);
            assert(t.subrange(t.len() - m, t.len() as int) =~= s@.subrange(k - m, k as int));
            assert(t.subrange(0, t.len() - m) =~= s@.subrange(0, k - m));
            k = k - m;
        }
        proof {
            let t = s@.subrange(0, k as int);
            if k >= m {
                assert(t.subrange(t.len() - m, t.len() as int) =~= s@.subrange(k - m, k as int));
            }
        }
    }
    String::from_str(s.substring_char(0, k))
}

/// Whether a file name holds the text searched for.
pub fn name_matches(name: &str, target: &str) -> (r: bool)
    ensures
        r == contains_text(name@, target@),
{
    let n = name.unicode_len();
    let m = target.unicode_len();
    if m > n {
        return false;
    }
    let mut i: usize = 0;
    while i <= n - m
        invariant
            n == name@.len(),
            m == target@.len(),
            m <= n,
            i <= n - m + 1,
            forall|j: int| 0 <= j < i ==> #[trigger] name@.subrange(j, j + m) != target@,
        decreases n - m + 1 - i,
    {
        if same_text(name.substring_char(i, i + m), target) {
            return true;
        }
        if i == n - m {
            return false;
        }
        i = i + 1;
    }
    false
}

/// Where the first space of `s` stands, if it has one.
fn first_space(s: &str) -> (r: Option<usize>)
    ensures
        match r {
            Some(i) => first_space_at(s@, i as int),
            None => forall|j: int| 0 <= j < s@.len() ==> s@[j] != ' ',
        },
{
    let n = s.unicode_len();
    let mut i: usize = 0;
    while i < n
        invariant
            n == s@.len(),
            i <= n,
            forall|j: int| 0 <= j < i ==> s@[j] != ' ',
        decreases n - i,
    {
        if s.get_char(i) == ' ' {
            return Some(i);
        }
        i = i + 1;
    }
    None
}

/// The answer to a file command that names no usable file.
pub open spec fn no_file_text() -> Seq<char> {
    "Error: Please provide a valid file name."@
}

/// The file that `create_file` and `delete_file` act on: the argument as a
/// file name, or the answer when that comes out empty.
pub open spec fn file_request(arg: Seq<char>, r: Result<String, String>) -> bool {
    match r {
        Ok(n) => n@ == sanitized(arg) && n@.len() > 0,
        Err(e) => sanitized(arg).len() == 0 && e@ == no_file_text(),
    }
}

/// The file that `create_file` creates, or the answer when there is none.
pub fn create_file(arg: &str) -> (r: Result<String, String>)
    ensures
        file_request(arg@, r),
{
    let name = clean_filename(arg);
    if name.unicode_len() == 0 {
        Err(String::from_str("Error: Please provide a valid file name."))
    } else {
        Ok(name)
    }
}

/// How `create_file` answers once the file system has tried.
pub open spec fn created_text(name: Seq<char>, outcome: Result<(), String>) -> Seq<char> {
    match outcome {
        Ok(_) => "File '"@ + name + "' created successfully."@,
        Err(e) => "Failed to create file '"@ + name + "': "@ + e@,
    }
}

/// The answer of `create_file` once the file system has tried.
pub fn file_created(name: &str, outcome: &Result<(), String>) -> (r: String)
    ensures
        r@ == created_text(name@, *outcome),
{
    match outcome {
        Ok(_) => cat3("File '", name, "' created successfully."),
        Err(e) => {
            let mut r = cat3("Failed to create file '", name, "': ");
            r.append(e.as_str());
            r
        },
    }
}

/// The file that `delete_file` removes, or the answer when there is none.
pub fn delete_file(arg: &str) -> (r: Result<String, String>)
    ensures
        file_request(arg@, r),
{
    create_file(arg)
}

/// How `delete_file` answers once the file system has tried.
pub open spec fn deleted_text(name: Seq<char>, outcome: Result<(), String>) -> Seq<char> {
    match outcome {
        Ok(_) => "File '"@ + name + "' deleted successfully."@,
        Err(e) => "Failed to delete file '"@ + name + "': "@ + e@,
    }
}

/// The answer of `delete_file` once the file system has tried.
pub fn file_deleted(name: &str, outcome: &Result<(), String>) -> (r: String)
    ensures
        r@ == deleted_text(name@, *outcome),
{
    match outcome {
        Ok(_) => cat3("File '", name, "' deleted successfully."),
        Err(e) => {
            let mut r = cat3("Failed to delete file '", name, "': ");
            r.append(e.as_str());
            r
        },
    }
}

/// A file that could not be removed is named in the answer.
pub proof fn failed_delete_names_file(name: Seq<char>, e: String)
    ensures
        contains_text(deleted_text(name, Err(e)), name),
{
    let t = deleted_text(name, Err(e));
    let k: int = "Failed to delete file '"@.len() as int;
    assert(t.subrange(k, k + name.len()) =~= name);
}

/// A file that could not be renamed is named in the answer.
pub proof fn failed_rename_names_file(old_name: Seq<char>, new_name: Seq<char>, e: String)
    ensures
        contains_text(renamed_text(old_name, new_name, Err(e)), old_name),
{
    let t = renamed_text(old_name, new_name, Err(e));
    let k: int = "Failed to rename '"@.len() as int;
    assert(t.subrange(k, k + old_name.len()) =~= old_name);
}

/// A file that could not be created is named in the answer.
pub proof fn failed_create_names_file(name: Seq<char>, e: String)
    ensures
        contains_text(created_text(name, Err(e)), name),
{
    let t = created_text(name, Err(e));
    let k: int = "Failed to create file '"@.len() as int;
    assert(t.subrange(k, k + name.len()) =~= name);
}

/// The two names of a move or rename request: the text before the first
/// space and the text after it, each read as a file name; none without a
/// space.
pub open spec fn two_names(arg: Seq<char>, r: Option<(String, String)>) -> bool {
    match r {
        Some((a, b)) => exists|i: int|
            first_space_at(arg, i) && a@ == sanitized(arg.subrange(0, i)) && b@ == sanitized(
                arg.subrange(i + 1, arg.len() as int),
            ),
        None => forall|j: int| 0 <= j < arg.len() ==> arg[j] != ' ',
    }
}

/// Splits a request at its first space into two file names.
pub fn split_names(arg: &str) -> (r: Option<(String, String)>)
    ensures
        two_names(arg@, r),
{
    match first_space(arg) {
        Some(i) => {
            let n = arg.unicode_len();
            let a = clean_filename(arg.substring_char(0, i));
            let b = clean_filename(arg.substring_char(i + 1, n));
            Some((a, b))
        },
        None => None,
    }
}

/// The source and destination that `move_file_or_folder` acts on, or the
/// answer when the request has no space.
pub fn move_file_or_folder(args: &str) -> (r: Result<(String, String), String>)
    ensures
        match r {
            Ok(p) => two_names(args@, Some(p)),
            Err(e) => two_names(args@, None) && e@ == "Error: Please provide source and destination."@,
        },
{
    match split_names(args) {
        Some(p) => Ok(p),
        None => Err(String::from_str("Error: Please provide source and destination.")),
    }
}

/// How `move_file_or_folder` answers: `exists` tells whether the source was
/// found, `outcome` how the move went.
pub open spec fn moved_text(
    source: Seq<char>,
    destination: Seq<char>,
    exists: bool,
    outcome: Result<(), String>,
) -> Seq<char> {
    if !exists {
        "Error: Source '"@ + source + "' does not exist."@
    } else {
        match outcome {
            Ok(_) => "Moved '"@ + source + "' to '"@ + destination + "'."@,
            Err(e) => "Failed to move '"@ + source + "': "@ + e@,
        }
    }
}

/// The answer of `move_file_or_folder`; with a missing source nothing was
/// moved and `outcome` does not matter.
pub fn file_moved(source: &str, destination: &str, exists: bool, outcome: &Result<(), String>) -> (r:
    String)
    ensures
        r@ == moved_text(source@, destination@, exists, *outcome),
{
    if !exists {
        return cat3("Error: Source '", source, "' does not exist.");
    }
    match outcome {
        Ok(_) => {
            let mut r = cat3("Moved '", source, "' to '");
            r.append(destination);
            r.append("'.");
            r
        },
        Err(e) => {
            let mut r = cat3("Failed to move '", source, "': ");
            r.append(e.as_str());
            r
        },
    }
}

/// The old and new names that `rename_file_or_folder` acts on, or the answer
/// when the request has no space.
pub fn rename_file_or_folder(args: &str) -> (r: Result<(String, String), String>)
    ensures
        match r {
            Ok(p) => two_names(args@, Some(p)),
            Err(e) => two_names(args@, None) && e@
                == "Error: Please provide both old and new file names."@,
        },
{
    match split_names(args) {
        Some(p) => Ok(p),
        None => Err(String::from_str("Error: Please provide both old and new file names.")),
    }
}

/// How `rename_file_or_folder` answers once the file system has tried.
pub open spec fn renamed_text(old_name: Seq<char>, new_name: Seq<char>, outcome: Result<(), String>) -> Seq<char> {
    match outcome {
        Ok(_) => "Renamed: "@ + old_name + " -> "@ + new_name,
        Err(e) => "Failed to rename '"@ + old_name + "': "@ + e@,
    }
}

/// The answer of `rename_file_or_folder` once the file system has tried.
pub fn file_renamed(old_name: &str, new_name: &str, outcome: &Result<(), String>) -> (r: String)
    ensures
        r@ == renamed_text(old_name@, new_name@, *outcome),
{
    match outcome {
        Ok(_) => cat3("Renamed: ", old_name, " -> ").concat(new_name),
        Err(e) => cat3("Failed to rename '", old_name, "': ").concat(e.as_str()),
    }
}

/// A file to open and the program that opens it.
#[derive(Debug)]
pub struct Opener {
    pub name: String,
    pub invocation: Invocation,
}

/// The file that `open_file` opens, read from `arg` as a file name, and the
/// program that opens it; or the answer when no file is named.
pub fn open_file(p: Platform, arg: &str) -> (r: Result<Opener, String>)
    ensures
        sanitized(arg@).len() == 0 <==> r is Err,
        r matches Err(e) ==> e@ == "Error: Please provide a file name."@,
        r matches Ok(o) ==> o.name@ == sanitized(arg@),
        r matches Ok(o) ==> (p == Platform::Windows ==> runs(
            o.invocation,
            "cmd"@,
            seq!["/C"@, "start"@, ""@, sanitized(arg@)],
        )),
        r matches Ok(o) ==> (p == Platform::Unix ==> runs(o.invocation, "xdg-open"@, seq![sanitized(arg@)])),
{
    let name = clean_filename(arg);
    if name.unicode_len() == 0 {
        return Err(String::from_str("Error: Please provide a file name."));
    }
    let n = name.as_str();
    let inv = match p {
        Platform::Windows => invocation("cmd", vec!["/C", "start", "", n]),
        Platform::Unix => invocation("xdg-open", vec![n]),
    };
    proof {
        match p {
            Platform::Windows => assert(arg_texts(inv.args@) =~= seq!["/C"@, "start"@, ""@, n@]),
            Platform::Unix => assert(arg_texts(inv.args@) =~= seq![n@]),
        }
    }
    Ok(Opener { name, invocation: inv })
}

/// How `open_file` ends once the opener has been started or has failed to
/// start: it announces the file, or answers with the reason.
pub fn file_opened(arg: &str, status: &Result<(), String>) -> (r: Settled)
    ensures
        match (*status, r) {
            (Ok(_), Settled::Announce(a)) => a.speech@ == "Opening "@ + arg@ && a.reply@ == a.speech@,
            (Err(e), Settled::Answer(t)) => t@ == "Failed to open file: "@ + e@,
            _ => false,
        },
{
    match status {
        Ok(_) => {
            let text = cat("Opening ", arg);
            Settled::Announce(echo(text.as_str()))
        },
        Err(e) => Settled::Answer(cat("Failed to open file: ", e.as_str())),
    }
}

/// The file that `print_file_content` reads, or the answer when there is none.
pub fn print_file_content(arg: &str) -> (r: Result<String, String>)
    ensures
        match r {
            Ok(n) => n@ == sanitized(arg@) && n@.len() > 0,
            Err(e) => sanitized(arg@).len() == 0 && e@ == "Error: Please provide a file name."@,
        },
{
    let name = clean_filename(arg);
    if name.unicode_len() == 0 {
        Err(String::from_str("Error: Please provide a file name."))
    } else {
        Ok(name)
    }
}

/// The lines of a file, each followed by a line break.
pub open spec fn listing(lines: Seq<Seq<char>>) -> Seq<char>
    decreases lines.len(),
{
    if lines.len() == 0 {
        Seq::empty()
    } else {
        listing(lines.drop_last()) + lines.last() + seq!['\n']
    }
}

/// The answer of `print_file_content`: the lines that could be read, each
/// followed by a line break, or a note when there were none.
pub fn file_listing(lines: &Vec<String>) -> (r: String)
    ensures
        r@ == or_note(listing(texts(lines@)), "The file is empty."@),
        r@.len() > 0,
{
    let mut out = String::new();
    let mut i: usize = 0;
    while i < lines.len()
        invariant
            i <= lines@.len(),
            out@ == listing(texts(lines@).subrange(0, i as int)),
        decreases lines@.len() - i,
    {
        out.append(lines[i].as_str());
        out.append("\n");
        proof {
            reveal_strlit("\n");
            let next = texts(lines@).subrange(0, i + 1);
            assert(next.drop_last() =~= texts(lines@).subrange(0, i as int));
        }
        i = i + 1;
    }
    assert(texts(lines@).subrange(0, lines@.len() as int) =~= texts(lines@));
    proof {
        reveal_strlit("The file is empty.");
    }
    unless_empty(out, "The file is empty.")
}

/// The answer of `print_file_content` when the file cannot be opened.
pub fn open_failed(name: &str, e: &str) -> (r: String)
    ensures
        r@ == "Failed to open file '"@ + name@ + "': "@ + e@,
{
    cat3("Failed to open file '", name, "': ").concat(e)
}

/// A compiler to run, and the name of the program it builds.
#[derive(Debug)]
pub struct Build {
    pub invocation: Invocation,
    pub output_name: String,
}

/// What `compile_code` does with the file that `arg` names: the compiler is
/// picked by the file's extension.
pub open spec fn compile_plan(arg: Seq<char>, r: Result<Build, String>) -> bool {
    let f = sanitized(arg);
    let o = build_name(f);
    if f.len() == 0 {
        r matches Err(e) && e@ == "Error: Please provide a file name to compile."@
    } else if ends_with(f, ".rs"@) {
        r matches Ok(b) && runs(b.invocation, "rustc"@, seq![f]) && b.output_name@ == o
    } else if ends_with(f, ".c"@) {
        r matches Ok(b) && runs(b.invocation, "gcc"@, seq![f, "-o"@, o]) && b.output_name@ == o
    } else if ends_with(f, ".cpp"@) {
        r matches Ok(b) && runs(b.invocation, "g++"@, seq![f, "-o"@, o]) && b.output_name@ == o
    } else if ends_with(f, ".py"@) {
        r matches Ok(b) && runs(b.invocation, "python3"@, seq!["-m"@, "py_compile"@, f])
            && b.output_name@ == o
    } else {
        r matches Err(e) && e@ == "Error: Unsupported file format."@
    }
}

/// The compiler that `compile_code` runs on the file `arg` names, or the
/// answer when there is none to run.
pub fn compile_code(arg: &str) -> (r: Result<Build, String>)
    ensures
        compile_plan(arg@, r),
{
    let f = clean_filename(arg);
    if f.unicode_len() == 0 {
        return Err(String::from_str("Error: Please provide a file name to compile."));
    }
    let c = strip_suffixes(f.as_str(), ".c");
    let o = strip_suffixes(c.as_str(), ".cpp");
    let fs = f.as_str();
    let os = o.as_str();
    let inv = if ends_with_text(fs, ".rs") {
        invocation("rustc", vec![fs])
    } else if ends_with_text(fs, ".c") {
        invocation("gcc", vec![fs, "-o", os])
    } else if ends_with_text(fs, ".cpp") {
        invocation("g++", vec![fs, "-o", os])
    } else if ends_with_text(fs, ".py") {
        invocation("python3", vec!["-m", "py_compile", fs])
    } else {
        return Err(String::from_str("Error: Unsupported file format."));
    };
    proof {
        let t = arg_texts(inv.args@);
        if ends_with(f@, ".rs"@) {
            assert(t =~= seq![f@]);
        } else if ends_with(f@, ".c"@) {
            assert(t =~= seq![f@, "-o"@, o@]);
        } else if ends_with(f@, ".cpp"@) {
            assert(t =~= seq![f@, "-o"@, o@]);
        } else {
            assert(t =~= seq!["-m"@, "py_compile"@, f@]);
        }
    }
    let output_name = String::from_str(os);
    Ok(Build { invocation: inv, output_name })
}

/// How `compile_code` answers once the compiler has run.
pub open spec fn compiled_text(output_name: Seq<char>, out: RunOutcome) -> Seq<char> {
    match out {
        RunOutcome::Finished(o) => if o.success {
            "Compilation successful. Executable: "@ + output_name
        } else {
            "Compilation failed: "@ + o.stderr@
        },
        RunOutcome::TimedOut => "Compilation timed out."@,
        RunOutcome::NotStarted(e) => "Failed to compile: "@ + e@,
    }
}

/// The answer of `compile_code` once the compiler has run.
pub fn compiled(output_name: &str, out: &RunOutcome) -> (r: String)
    ensures
        r@ == compiled_text(output_name@, *out),
{
    match out {
        RunOutcome::Finished(o) => if o.success {
            cat("Compilation successful. Executable: ", output_name)
        } else {
            cat("Compilation failed: ", o.stderr.as_str())
        },
        RunOutcome::TimedOut => String::from_str("Compilation timed out."),
        RunOutcome::NotStarted(e) => cat("Failed to compile: ", e.as_str()),
    }
}

/// The program that `run_code` runs for the file `arg` names: a Python file
/// through the interpreter, anything else as the program built from it.
pub fn run_code(arg: &str) -> (r: Invocation)
    ensures
        ends_with(sanitized(arg@), ".py"@) ==> runs(r, "python3"@, seq![sanitized(arg@)]),
        !ends_with(sanitized(arg@), ".py"@) ==> runs(
            r,
            "./"@ + build_name(sanitized(arg@)),
            Seq::<Seq<char>>::empty(),
        ),
{
    let f = clean_filename(arg);
    let c = strip_suffixes(f.as_str(), ".c");
    let o = strip_suffixes(c.as_str(), ".cpp");
    if ends_with_text(f.as_str(), ".py") {
        let inv = invocation("python3", vec![f.as_str()]);
        assert(arg_texts(inv.args@) =~= seq![f@]);
        inv
    } else {
        let program = cat("./", o.as_str());
        let inv = invocation(program.as_str(), Vec::new());
        assert(arg_texts(inv.args@) =~= Seq::<Seq<char>>::empty());
        inv
    }
}

/// How `run_code` answers once the program has run.
pub open spec fn ran_text(out: RunOutcome) -> Seq<char> {
    match out {
        RunOutcome::Finished(o) => if o.success {
            "Output:\n"@ + o.stdout@
        } else {
            "Execution failed: "@ + o.stderr@
        },
        RunOutcome::TimedOut => "Execution timed out."@,
        RunOutcome::NotStarted(e) => "Error running the program: "@ + e@,
    }
}

/// The answer of `run_code` once the program has run.
pub fn code_ran(out: &RunOutcome) -> (r: String)
    ensures
        r@ == ran_text(*out),
{
    match out {
        RunOutcome::Finished(o) => if o.success {
            cat("Output:\n", o.stdout.as_str())
        } else {
            cat("Execution failed: ", o.stderr.as_str())
        },
        RunOutcome::TimedOut => String::from_str("Execution timed out."),
        RunOutcome::NotStarted(e) => cat("Error running the program: ", e.as_str()),
    }
}

/// A link to make: the program that makes it, and its two ends.
#[derive(Debug)]
pub struct Link {
    pub invocation: Invocation,
    pub source: String,
    pub target: String,
}

/// The link that `create_symlink` makes from the first two words of `arg`
/// read as file names, or the answer when there are fewer.
pub fn create_symlink(p: Platform, arg: &str) -> (r: Result<Link, String>)
    ensures
        words(sanitized(arg@)).len() < 2 <==> r is Err,
        r matches Err(e) ==> e@ == "Error: Please provide source and target (e.g., 'source target')."@,
        r matches Ok(l) ==> l.source@ == words(sanitized(arg@))[0] && l.target@ == words(
            sanitized(arg@),
        )[1],
        r matches Ok(l) ==> (p == Platform::Windows ==> runs(
            l.invocation,
            "cmd"@,
            seq!["/C"@, "mklink"@, l.target@, l.source@],
        )),
        r matches Ok(l) ==> (p == Platform::Unix ==> runs(l.invocation, "ln"@, seq!["-s"@, l.source@, l.target@])),
{
    let cleaned = clean_filename(arg);
    let ws = split_words(cleaned.as_str());
    proof {
        assert(texts(ws@).len() == ws@.len());
    }
    if ws.len() < 2 {
        return Err(String::from_str("Error: Please provide source and target (e.g., 'source target')."));
    }
    let source = ws[0].clone();
    let target = ws[1].clone();
    proof {
        assert(texts(ws@)[0] == ws@[0]@);
        assert(texts(ws@)[1] == ws@[1]@);
    }
    let s = source.as_str();
    let t = target.as_str();
    let inv = match p {
        Platform::Windows => invocation("cmd", vec!["/C", "mklink", t, s]),
        Platform::Unix => invocation("ln", vec!["-s", s, t]),
    };
    proof {
        match p {
            Platform::Windows => assert(arg_texts(inv.args@) =~= seq!["/C"@, "mklink"@, t@, s@]),
            Platform::Unix => assert(arg_texts(inv.args@) =~= seq!["-s"@, s@, t@]),
        }
    }
    Ok(Link { invocation: inv, source, target })
}

/// How `create_symlink` ends once the link program has been started or has
/// failed to start.
pub fn symlink_made(source: &str, target: &str, status: &Result<(), String>) -> (r: Settled)
    ensures
        match (*status, r) {
            (Ok(_), Settled::Announce(a)) => a.speech@ == "Created symlink from "@ + source@ + " to "@
                + target@ && a.reply@ == a.speech@,
            (Err(e), Settled::Answer(t)) => t@ == "Failed to create symlink: "@ + e@,
            _ => false,
        },
{
    match status {
        Ok(_) => {
            let text = cat3("Created symlink from ", source, " to ").concat(target);
            Settled::Announce(echo(text.as_str()))
        },
        Err(e) => Settled::Answer(cat("Failed to create symlink: ", e.as_str())),
    }
}

/// The text that `search_file_or_folder` looks for in file names.
pub fn search_file_or_folder(arg: &str) -> (r: String)
    ensures
        r@ == sanitized(arg@),
{
    clean_filename(arg)
}

/// The answer of `search_file_or_folder`: the first path found, if any.
pub fn search_result(target: &str, found: &Option<String>) -> (r: String)
    ensures
        match *found {
            Some(p) => r@ == "Found: "@ + p@,
            None => r@ == "'"@ + target@ + "' not found."@,
        },
{
    match found {
        Some(p) => cat("Found: ", p.as_str()),
        None => cat3("'", target, "' not found."),
    }
}

} // verus!
