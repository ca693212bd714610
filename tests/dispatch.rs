use voice_backend::commands::{all_commands, CommandKind};
use voice_backend::dispatch::{fallback_reply, tokenize, Route};
use voice_backend::registry::{RegisterError, Registry};
use voice_backend::sanitize::clean_filename;

#[test]
fn tokenizes_name_and_argument() {
    let p = tokenize("open_file report dot txt");
    assert_eq!(p.name, "open_file");
    assert_eq!(p.argument, "report dot txt");
    assert_eq!(clean_filename(&p.argument), "report.txt");
}

#[test]
fn tokenizer_collapses_whitespace() {
    let p = tokenize("  create_file \t my   notes\n dot  txt  ");
    assert_eq!(p.name, "create_file");
    assert_eq!(p.argument, "my notes dot txt");
}

#[test]
fn tokenizes_single_word() {
    let p = tokenize("hello");
    assert_eq!(p.name, "hello");
    assert_eq!(p.argument, "");
}

#[test]
fn empty_line_gives_empty_parts_and_fallback() {
    let p = tokenize("");
    assert_eq!(p.name, "");
    assert_eq!(p.argument, "");
    let reg = Registry::standard();
    assert!(matches!(reg.route(""), Route::Fallback));
    assert!(matches!(reg.route("   \t "), Route::Fallback));
    assert_eq!(fallback_reply(), "Sorry, I didn't get you.");
}

#[test]
fn unknown_command_falls_back_whatever_the_argument() {
    let reg = Registry::standard();
    assert!(matches!(reg.route("frobnicate"), Route::Fallback));
    assert!(matches!(reg.route("frobnicate hello world"), Route::Fallback));
    assert!(matches!(reg.route("frobnicate   open_file x dot y"), Route::Fallback));
}

#[test]
fn every_registered_name_routes_with_empty_argument() {
    let reg = Registry::standard();
    let all = all_commands();
    assert_eq!(all.len(), 46);
    for k in all {
        match reg.route(k.name()) {
            Route::Invoke(found, arg) => {
                assert_eq!(found, k);
                assert_eq!(arg, "");
            }
            Route::Fallback => panic!("{} did not resolve", k.name()),
        }
    }
}

#[test]
fn lookup_is_case_sensitive() {
    let reg = Registry::standard();
    assert_eq!(reg.lookup("hello"), Some(CommandKind::Hello));
    assert_eq!(reg.lookup("Hello"), None);
    assert_eq!(reg.lookup("HELLO"), None);
    assert!(matches!(reg.route("Hello there"), Route::Fallback));
}

#[test]
fn route_passes_argument() {
    let reg = Registry::standard();
    match reg.route("delete_file  old   report dot txt") {
        Route::Invoke(k, arg) => {
            assert_eq!(k, CommandKind::DeleteFile);
            assert_eq!(arg, "old report dot txt");
        }
        Route::Fallback => panic!("delete_file did not resolve"),
    }
}

#[test]
fn moving_commands_are_not_registered() {
    let reg = Registry::standard();
    assert_eq!(reg.lookup("move_file_or_folder"), None);
    assert_eq!(reg.lookup("rename_file_or_folder"), None);
}

#[test]
fn duplicate_registration_is_refused() {
    let mut reg = Registry::new();
    assert_eq!(reg.register("hello", CommandKind::Hello), Ok(()));
    assert_eq!(reg.register("hello", CommandKind::Exit), Err(RegisterError::Duplicate));
    assert_eq!(reg.lookup("hello"), Some(CommandKind::Hello));
    assert_eq!(reg.lookup("exit"), None);
}
