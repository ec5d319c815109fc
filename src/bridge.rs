use vstd::prelude::*;
use crate::probe::{
    check_default_messages_path, check_directory_exists, messages_path_of, opt_view,
};

verus! {

/// A primitive argument value handed over by the presentation layer.
pub enum Primitive {
    Str(String),
    Bool(bool),
    Absent,
}

/// One invocation: a command name and its named arguments.
pub struct CommandRequest {
    pub name: String,
    pub args: Vec<(String, Primitive)>,
}

/// The commands the bridge knows of.
#[derive(Clone, Copy, Debug, PartialEq, Eq, Structural)]
pub enum Command {
    Greet,
    CheckDefaultMessagesPath,
    CheckDirectoryExists,
    GetDocumentsDir,
}

/// A command together with the arguments it was decoded with.
pub enum Call {
    Greet { name: String },
    CheckDefaultMessagesPath,
    CheckDirectoryExists { path: String },
    GetDocumentsDir,
}

/// What a decoded call stands for, over plain text.
pub enum CallView {
    Greet { name: Seq<char> },
    CheckDefaultMessagesPath,
    CheckDirectoryExists { path: Seq<char> },
    GetDocumentsDir,
}

/// What dispatching a well-formed request leads to.
pub enum Dispatched {
    /// The handler ran and this is its reply.
    Replied(Reply),
    /// The caller looks up the documents directory and hands the outcome to
    /// `documents_dir_reply`.
    NeedsDocumentsDir,
}

/// The success payload of a command.
pub enum Reply {
    Text(String),
    Flag(bool),
    MaybePath(Option<String>),
}

/// Why a call could not be performed.
pub enum BridgeError {
    /// No registered command has this name.
    UnknownCommand { name: String },
    /// The named argument is missing or is not of the type the command takes.
    InvalidArguments { argument: String },
    /// The handler of the named command faulted before it produced a reply.
    HandlerFault { command: String },
}

/// A bridge error over plain text.
pub enum BridgeErrorView {
    UnknownCommand { name: Seq<char> },
    InvalidArguments { argument: Seq<char> },
    HandlerFault { command: Seq<char> },
}

impl View for Call {
    type V = CallView;

    open spec fn view(&self) -> CallView {
        match self {
            Call::Greet { name } => CallView::Greet { name: name@ },
            Call::CheckDefaultMessagesPath => CallView::CheckDefaultMessagesPath,
            Call::CheckDirectoryExists { path } => CallView::CheckDirectoryExists { path: path@ },
            Call::GetDocumentsDir => CallView::GetDocumentsDir,
        }
    }
}

impl View for BridgeError {
    type V = BridgeErrorView;

    open spec fn view(&self) -> BridgeErrorView {
        match self {
            BridgeError::UnknownCommand { name } => BridgeErrorView::UnknownCommand { name: name@ },
            BridgeError::InvalidArguments { argument } => BridgeErrorView::InvalidArguments {
                argument: argument@,
            },
            BridgeError::HandlerFault { command } => BridgeErrorView::HandlerFault {
                command: command@,
            },
        }
    }
}

/// The name under which a command is invoked.
pub open spec fn command_name(c: Command) -> Seq<char> {
    match c {
        Command::Greet => "greet"@,
        Command::CheckDefaultMessagesPath => "check_default_messages_path"@,
        Command::CheckDirectoryExists => "check_directory_exists"@,
        Command::GetDocumentsDir => "get_documents_dir"@,
    }
}

/// The command invoked under `n`, if any.
pub open spec fn command_named(n: Seq<char>) -> Option<Command> {
    if n == command_name(Command::Greet) {
        Some(Command::Greet)
    } else if n == command_name(Command::CheckDefaultMessagesPath) {
        Some(Command::CheckDefaultMessagesPath)
    } else if n == command_name(Command::CheckDirectoryExists) {
        Some(Command::CheckDirectoryExists)
    } else if n == command_name(Command::GetDocumentsDir) {
        Some(Command::GetDocumentsDir)
    } else {
        None
    }
}

/// The command that a registry holding `cmds` runs for the name `n`.
pub open spec fn registered(cmds: Seq<Command>, n: Seq<char>) -> Option<Command> {
    match command_named(n) {
        Some(c) => if cmds.contains(c) {
            Some(c)
        } else {
            None
        },
        None => None,
    }
}

/// The value of the first argument at or after position `i` named `key`.
pub open spec fn find_arg(args: Seq<(String, Primitive)>, key: Seq<char>, i: int) -> Option<Primitive>
    decreases args.len() - i,
{
    if i < 0 || i >= args.len() {
        None
    } else if args[i].0@ == key {
        Some(args[i].1)
    } else {
        find_arg(args, key, i + 1)
    }
}

/// The text of the argument named `key`, where the first one so named is a string.
pub open spec fn string_arg_of(args: Seq<(String, Primitive)>, key: Seq<char>) -> Option<Seq<char>> {
    match find_arg(args, key, 0) {
        Some(Primitive::Str(s)) => Some(s@),
        _ => None,
    }
}

/// How a registry holding `cmds` decodes the name `n` and the arguments `args`.
pub open spec fn decode_spec(cmds: Seq<Command>, n: Seq<char>, args: Seq<(String, Primitive)>) -> Result<
    CallView,
    BridgeErrorView,
> {
    match registered(cmds, n) {
        None => Err(BridgeErrorView::UnknownCommand { name: n }),
        Some(Command::Greet) => match string_arg_of(args, "name"@) {
            Some(s) => Ok(CallView::Greet { name: s }),
            None => Err(BridgeErrorView::InvalidArguments { argument: "name"@ }),
        },
        Some(Command::CheckDefaultMessagesPath) => Ok(CallView::CheckDefaultMessagesPath),
        Some(Command::CheckDirectoryExists) => match string_arg_of(args, "path"@) {
            Some(s) => Ok(CallView::CheckDirectoryExists { path: s }),
            None => Err(BridgeErrorView::InvalidArguments { argument: "path"@ }),
        },
        Some(Command::GetDocumentsDir) => Ok(CallView::GetDocumentsDir),
    }
}

/// The greeting for `name`, which holds it verbatim.
pub open spec fn greeting(name: Seq<char>) -> Seq<char> {
    "Hello, "@ + name + "! You've been greeted from Rust!"@
}

/// Whether `r` is a reply that the call `c` may produce: the greeting is
/// exact, a directory probe gives a flag, a path probe an optional path, and
/// the Messages path, when present, lies below some home directory.
/// The documents directory is looked up by the caller, so no reply is
/// produced for it here.
pub open spec fn reply_fits(c: CallView, r: Reply) -> bool {
    match c {
        CallView::Greet { name } => r matches Reply::Text(t) && t@ == greeting(name),
        CallView::CheckDirectoryExists { .. } => r is Flag,
        CallView::GetDocumentsDir => false,
        CallView::CheckDefaultMessagesPath => r matches Reply::MaybePath(p) && (p matches Some(s)
            ==> exists|h: Seq<char>| s@ == #[trigger] messages_path_of(h)),
    }
}

/// Whether `d` is what dispatching the call `c` may lead to.
pub open spec fn dispatched_fits(c: CallView, d: Dispatched) -> bool {
    match c {
        CallView::GetDocumentsDir => d is NeedsDocumentsDir,
        _ => d matches Dispatched::Replied(r) && reply_fits(c, r),
    }
}

/// Whether two strings hold the same characters.
pub fn same_text(a: &str, b: &str) -> (r: bool)
    ensures
        r == (a@ == b@),
{
    let n = a.unicode_len();
    if n != b.unicode_len() {
        return false;
    }
    let mut i: usize = 0;
    while i < n
        invariant
            n == a@.len(),
            n == b@.len(),
            i <= n,
            a@.subrange(0, i as int) == b@.subrange(0, i as int),
        decreases n - i,
    {
        if a.get_char(i) != b.get_char(i) {
            return false;
        }
        assert(a@.subrange(0, i + 1) =~= a@.subrange(0, i as int).push(a@[i as int]));
        assert(b@.subrange(0, i + 1) =~= b@.subrange(0, i as int).push(b@[i as int]));
        i = i + 1;
    }
    assert(a@ =~= a@.subrange(0, n as int));
    assert(b@ =~= b@.subrange(0, n as int));
    true
}

impl Command {
    /// The name under which the command is invoked.
    pub fn name(&self) -> (r: String)
        ensures
            r@ == command_name(*self),
    {
        match self {
            Command::Greet => String::from_str("greet"),
            Command::CheckDefaultMessagesPath => String::from_str("check_default_messages_path"),
            Command::CheckDirectoryExists => String::from_str("check_directory_exists"),
            Command::GetDocumentsDir => String::from_str("get_documents_dir"),
        }
    }

    /// The command invoked under `name`, if any.
    pub fn from_name(name: &str) -> (r: Option<Command>)
        ensures
            r == command_named(name@),
    {
        if same_text(name, "greet") {
            Some(Command::Greet)
        } else if same_text(name, "check_default_messages_path") {
            Some(Command::CheckDefaultMessagesPath)
        } else if same_text(name, "check_directory_exists") {
            Some(Command::CheckDirectoryExists)
        } else if same_text(name, "get_documents_dir") {
            Some(Command::GetDocumentsDir)
        } else {
            None
        }
    }
}

/// The text of the argument named `key`, where the first argument so named
/// holds a string.
pub fn string_arg(args: &Vec<(String, Primitive)>, key: &str) -> (r: Option<String>)
    ensures
        opt_view(r) == string_arg_of(args@, key@),
{
    let mut i: usize = 0;
    while i < args.len()
        invariant
            i <= args@.len(),
            find_arg(args@, key@, 0) == find_arg(args@, key@, i as int),
        decreases args@.len() - i,
    {
        if same_text(args[i].0.as_str(), key) {
            return match &args[i].1 {
                Primitive::Str(s) => Some(s.clone()),
                _ => None,
            };
        }
        i = i + 1;
    }
    None
}

/// Formats the greeting for `name`; it always succeeds.
pub fn greet(name: &str) -> (r: String)
    ensures
        r@ == greeting(name@),
{
    let mut r = String::from_str("Hello, ");
    r.append(name);
    r.append("! You've been greeted from Rust!");
    r
}

/// Performs a decoded call. The probes read the filesystem afresh each time.
pub fn execute(call: &Call) -> (r: Dispatched)
    ensures
        dispatched_fits(call@, r),
{
    match call {
        Call::Greet { name } => Dispatched::Replied(Reply::Text(greet(name.as_str()))),
        Call::CheckDefaultMessagesPath => Dispatched::Replied(
            Reply::MaybePath(check_default_messages_path()),
        ),
        Call::CheckDirectoryExists { path } => Dispatched::Replied(
            Reply::Flag(check_directory_exists(path.clone())),
        ),
        Call::GetDocumentsDir => Dispatched::NeedsDocumentsDir,
    }
}

/// The failure that stands for a fault in the handler of `c`.
pub fn handler_fault(c: Command) -> (r: BridgeError)
    ensures
        r@ == (BridgeErrorView::HandlerFault { command: command_name(c) }),
{
    BridgeError::HandlerFault { command: c.name() }
}

/// The reply to `get_documents_dir`, given the outcome of the lookup:
/// `None` when the lookup faulted, else the directory found, if any.
pub fn documents_dir_reply(looked_up: Option<Option<String>>) -> (r: Result<Reply, BridgeError>)
    ensures
        match looked_up {
            None => r matches Err(e) && e@ == (BridgeErrorView::HandlerFault {
                command: command_name(Command::GetDocumentsDir),
            }),
            Some(d) => r matches Ok(Reply::MaybePath(p)) && opt_view(p) == opt_view(d),
        },
{
    match looked_up {
        None => Err(handler_fault(Command::GetDocumentsDir)),
        Some(d) => Ok(Reply::MaybePath(d)),
    }
}

/// The fixed table from command names to handlers. It cannot change once built.
pub struct CommandRegistry {
    commands: Vec<Command>,
}

impl CommandRegistry {
    /// The commands the registry runs.
    pub closed spec fn commands(&self) -> Seq<Command> {
        self.commands@
    }

    /// A registry of the given commands.
    pub fn new(commands: Vec<Command>) -> (r: CommandRegistry)
        ensures
            r.commands() == commands@,
    {
        CommandRegistry { commands }
    }

    /// The registry of all four commands.
    pub fn standard() -> (r: CommandRegistry)
        ensures
            r.commands() == seq![
                Command::Greet,
                Command::CheckDefaultMessagesPath,
                Command::CheckDirectoryExists,
                Command::GetDocumentsDir,
            ],
    {
        let mut v: Vec<Command> = Vec::new();
        v.push(Command::Greet);
        v.push(Command::CheckDefaultMessagesPath);
        v.push(Command::CheckDirectoryExists);
        v.push(Command::GetDocumentsDir);
        assert(v@ =~= seq![
            Command::Greet,
            Command::CheckDefaultMessagesPath,
            Command::CheckDirectoryExists,
            Command::GetDocumentsDir,
        ]);
        CommandRegistry { commands: v }
    }

    /// Whether the registry runs `c`.
    pub fn contains(&self, c: Command) -> (r: bool)
        ensures
            r == self.commands().contains(c),
    {
        let mut i: usize = 0;
        while i < self.commands.len()
            invariant
                i <= self.commands@.len(),
                forall|j: int| 0 <= j < i ==> self.commands@[j] != c,
            decreases self.commands@.len() - i,
        {
            if self.commands[i] == c {
                return true;
            }
            i = i + 1;
        }
        false
    }

    /// The registered command invoked under `name`, if any.
    pub fn lookup(&self, name: &str) -> (r: Option<Command>)
        ensures
            r == registered(self.commands(), name@),
    {
        match Command::from_name(name) {
            Some(c) => if self.contains(c) {
                Some(c)
            } else {
                None
            },
            None => None,
        }
    }

    /// Resolves the request's command and checks the shape of its arguments.
    /// Arguments that the command does not take are ignored.
    pub fn decode(&self, req: &CommandRequest) -> (r: Result<Call, BridgeError>)
        ensures
            result_view(&r) == decode_spec(self.commands(), req.name@, req.args@),
    {
        match self.lookup(req.name.as_str()) {
            None => Err(BridgeError::UnknownCommand { name: req.name.clone() }),
            Some(Command::Greet) => match string_arg(&req.args, "name") {
                Some(s) => Ok(Call::Greet { name: s }),
                None => Err(BridgeError::InvalidArguments { argument: String::from_str("name") }),
            },
            Some(Command::CheckDefaultMessagesPath) => Ok(Call::CheckDefaultMessagesPath),
            Some(Command::CheckDirectoryExists) => match string_arg(&req.args, "path") {
                Some(s) => Ok(Call::CheckDirectoryExists { path: s }),
                None => Err(BridgeError::InvalidArguments { argument: String::from_str("path") }),
            },
            Some(Command::GetDocumentsDir) => Ok(Call::GetDocumentsDir),
        }
    }

    /// Runs one request to completion: an unknown name or ill-shaped
    /// arguments give an error, anything else the handler's reply. Nothing
    /// is kept between calls.
    pub fn dispatch(&self, req: &CommandRequest) -> (r: Result<Dispatched, BridgeError>)
        ensures
            match decode_spec(self.commands(), req.name@, req.args@) {
                Err(e) => r matches Err(x) && x@ == e,
                Ok(c) => r matches Ok(d) && dispatched_fits(c, d),
            },
    {
        match self.decode(req) {
            Err(e) => Err(e),
            Ok(call) => Ok(execute(&call)),
        }
    }
}

/// The decoded call, or the error, as plain text.
pub open spec fn result_view(r: &Result<Call, BridgeError>) -> Result<CallView, BridgeErrorView> {
    match r {
        Ok(c) => Ok(c@),
        Err(e) => Err(e@),
    }
}

/// Whatever commands a registry holds and whatever arguments come along, a
/// name that no command has is rejected as unknown.
pub proof fn lemma_unknown_name_rejected(
    cmds: Seq<Command>,
    n: Seq<char>,
    args: Seq<(String, Primitive)>,
)
    requires
        command_named(n) is None,
    ensures
        decode_spec(cmds, n, args) == Err::<CallView, BridgeErrorView>(
            BridgeErrorView::UnknownCommand { name: n },
        ),
{
}

/// Whatever commands a registry holds and whatever arguments come along,
/// `does_not_exist` is rejected as an unknown command.
pub proof fn lemma_does_not_exist_rejected(cmds: Seq<Command>, args: Seq<(String, Primitive)>)
    ensures
        decode_spec(cmds, "does_not_exist"@, args) == Err::<CallView, BridgeErrorView>(
            BridgeErrorView::UnknownCommand { name: "does_not_exist"@ },
        ),
{
    reveal_strlit("does_not_exist");
    reveal_strlit("greet");
    reveal_strlit("check_default_messages_path");
    reveal_strlit("check_directory_exists");
    reveal_strlit("get_documents_dir");
    let d = "does_not_exist"@;
    assert(d.len() == 14);
    assert(d != command_name(Command::Greet));
    assert(d != command_name(Command::CheckDefaultMessagesPath));
    assert(d != command_name(Command::CheckDirectoryExists));
    assert(d != command_name(Command::GetDocumentsDir));
    lemma_unknown_name_rejected(cmds, d, args);
}

/// For every name, the greeting holds the name verbatim, right after
/// `Hello, `.
pub proof fn lemma_greeting_holds_name(name: Seq<char>)
    ensures
        greeting(name).len() >= name.len(),
        greeting(name).subrange(7, 7 + name.len() as int) == name,
{
    reveal_strlit("Hello, ");
    assert(greeting(name).subrange(7, 7 + name.len() as int) =~= name);
}

} // verus!
