use threadbound::bridge::{
    documents_dir_reply, greet, handler_fault, same_text, string_arg, BridgeError, Call, Command,
    CommandRegistry, CommandRequest, Dispatched, Primitive, Reply,
};

fn request(name: &str, args: Vec<(&str, Primitive)>) -> CommandRequest {
    CommandRequest {
        name: name.to_string(),
        args: args.into_iter().map(|(k, v)| (k.to_string(), v)).collect(),
    }
}

fn text(s: &str) -> Primitive {
    Primitive::Str(s.to_string())
}

/// A regular file present on Linux and macOS alike.
const REGULAR_FILE: &str = "/etc/hosts";

#[test]
fn greet_holds_name_verbatim() {
    let g = greet("Ada");
    assert_eq!(g, "Hello, Ada! You've been greeted from Rust!");
    assert!(g.contains("Ada"));
}

#[test]
fn greet_accepts_empty_and_control_characters() {
    assert_eq!(greet(""), "Hello, ! You've been greeted from Rust!");
    let g = greet("a\u{0}\n\tb");
    assert!(g.contains("a\u{0}\n\tb"));
}

#[test]
fn dispatch_greet() {
    let reg = CommandRegistry::standard();
    match reg.dispatch(&request("greet", vec![("name", text("Ada"))])) {
        Ok(Dispatched::Replied(Reply::Text(t))) => assert_eq!(t, "Hello, Ada! You've been greeted from Rust!"),
        _ => panic!("greet must succeed with a text reply"),
    }
}

#[test]
fn dispatch_unknown_command_in_any_registry() {
    let regs = vec![
        CommandRegistry::standard(),
        CommandRegistry::new(vec![]),
        CommandRegistry::new(vec![Command::Greet]),
    ];
    for reg in regs {
        match reg.dispatch(&request("does_not_exist", vec![])) {
            Err(BridgeError::UnknownCommand { name }) => assert_eq!(name, "does_not_exist"),
            _ => panic!("an unknown name must be rejected"),
        }
    }
}

#[test]
fn dispatch_unregistered_command_is_unknown() {
    let reg = CommandRegistry::new(vec![Command::Greet]);
    let r = reg.dispatch(&request("get_documents_dir", vec![]));
    assert!(matches!(r, Err(BridgeError::UnknownCommand { .. })));
}

#[test]
fn dispatch_missing_argument_names_it() {
    let reg = CommandRegistry::standard();
    match reg.dispatch(&request("greet", vec![])) {
        Err(BridgeError::InvalidArguments { argument }) => assert_eq!(argument, "name"),
        _ => panic!("a missing argument must be rejected"),
    }
}

#[test]
fn dispatch_wrong_argument_type_names_it() {
    let reg = CommandRegistry::standard();
    let r = reg.dispatch(&request("check_directory_exists", vec![("path", Primitive::Bool(true))]));
    match r {
        Err(BridgeError::InvalidArguments { argument }) => assert_eq!(argument, "path"),
        _ => panic!("a boolean path must be rejected"),
    }
    let r = reg.dispatch(&request("greet", vec![("name", Primitive::Absent)]));
    assert!(matches!(r, Err(BridgeError::InvalidArguments { .. })));
}

#[test]
fn check_directory_exists_on_directory_file_and_missing_path() {
    let reg = CommandRegistry::standard();
    let dir = reg.dispatch(&request("check_directory_exists", vec![("path", text("/"))]));
    assert!(matches!(dir, Ok(Dispatched::Replied(Reply::Flag(true)))));
    assert!(std::path::Path::new(REGULAR_FILE).is_file());
    let file = reg.dispatch(&request(
        "check_directory_exists",
        vec![("path", text(REGULAR_FILE))],
    ));
    assert!(matches!(file, Ok(Dispatched::Replied(Reply::Flag(false)))));
    let missing = reg.dispatch(&request(
        "check_directory_exists",
        vec![("path", text("/definitely/missing/xyz"))],
    ));
    assert!(matches!(missing, Ok(Dispatched::Replied(Reply::Flag(false)))));
}

#[test]
fn dispatch_calls_do_not_interfere() {
    let reg = CommandRegistry::standard();
    let a = request("check_directory_exists", vec![("path", text("/"))]);
    let b = request("greet", vec![("name", text("Ada"))]);
    let a_first = reg.dispatch(&a);
    let b_second = reg.dispatch(&b);
    let b_first = reg.dispatch(&b);
    let a_second = reg.dispatch(&a);
    assert!(matches!((a_first, a_second), (Ok(Dispatched::Replied(Reply::Flag(x))), Ok(Dispatched::Replied(Reply::Flag(y)))) if x == y));
    match (b_first, b_second) {
        (Ok(Dispatched::Replied(Reply::Text(x))), Ok(Dispatched::Replied(Reply::Text(y)))) => assert_eq!(x, y),
        _ => panic!("greet must succeed"),
    }
}

#[test]
fn path_probes_reply_with_optional_paths() {
    let reg = CommandRegistry::standard();
    let r = reg.dispatch(&request("get_documents_dir", vec![]));
    assert!(matches!(r, Ok(Dispatched::NeedsDocumentsDir)));
    match reg.dispatch(&request("check_default_messages_path", vec![])) {
        Ok(Dispatched::Replied(Reply::MaybePath(Some(p)))) => assert!(p.ends_with("Library/Messages/chat.db")),
        Ok(Dispatched::Replied(Reply::MaybePath(None))) => {}
        _ => panic!("the Messages probe never fails"),
    }
}

#[test]
fn extra_arguments_are_ignored_and_first_match_wins() {
    let reg = CommandRegistry::standard();
    let req = request(
        "greet",
        vec![("other", Primitive::Bool(false)), ("name", text("Bo")), ("name", text("Cy"))],
    );
    let call = reg.decode(&req);
    assert!(matches!(call, Ok(Call::Greet { ref name }) if name == "Bo"));
    assert_eq!(string_arg(&req.args, "missing"), None);
}

#[test]
fn command_names_round_trip() {
    for c in [
        Command::Greet,
        Command::CheckDefaultMessagesPath,
        Command::CheckDirectoryExists,
        Command::GetDocumentsDir,
    ] {
        assert_eq!(Command::from_name(&c.name()), Some(c));
    }
    assert_eq!(Command::from_name("Greet"), None);
    assert!(same_text("abc", "abc"));
    assert!(!same_text("abc", "abd"));
    assert!(!same_text("abc", "ab"));
}

#[test]
fn documents_dir_reply_passes_the_lookup_on() {
    let found = documents_dir_reply(Some(Some("/home/ada/Documents".to_string())));
    match found {
        Ok(Reply::MaybePath(Some(p))) => assert_eq!(p, "/home/ada/Documents"),
        _ => panic!("a found directory must be the reply"),
    }
    assert!(matches!(documents_dir_reply(Some(None)), Ok(Reply::MaybePath(None))));
}

#[test]
fn documents_dir_fault_becomes_failure() {
    match documents_dir_reply(None) {
        Err(BridgeError::HandlerFault { command }) => assert_eq!(command, "get_documents_dir"),
        _ => panic!("a faulted lookup must be reported"),
    }
    match handler_fault(Command::CheckDirectoryExists) {
        BridgeError::HandlerFault { command } => assert_eq!(command, "check_directory_exists"),
        _ => panic!("a handler fault names its command"),
    }
}
