use vstd::prelude::*;

verus! {

/// Why starting the backend did not lead to a running child.
#[derive(Clone, Copy, Debug, PartialEq, Eq, Structural)]
pub enum SupervisorError {
    /// The executable was missing, not executable, or the spawn itself failed.
    SidecarSpawnFailed,
    /// A start was requested after the single start of this application's lifetime.
    AlreadyStarted,
}

/// Where the supervisor stands in the life of its one child.
#[derive(Clone, Copy, Debug, PartialEq, Eq, Structural)]
pub enum SupervisorState {
    /// Nothing was started yet.
    Idle,
    /// The spawn was handed out and its outcome is awaited.
    Spawning,
    /// The child runs under the given process identifier.
    Running { pid: u32 },
    /// The child exited after a successful start; it is not relaunched.
    Exited { pid: u32, code: Option<i32> },
    /// The spawn failed; startup is aborted.
    Failed,
}

/// What the application reports to the supervisor.
#[derive(Clone, Copy, Debug, PartialEq, Eq, Structural)]
pub enum SupervisorEvent {
    /// Startup asks for the backend.
    Start,
    /// The spawn succeeded and the child has this process identifier.
    Spawned { pid: u32 },
    /// The spawn failed.
    SpawnFailed,
    /// The child's process ended, with its exit code where there was one.
    ChildExited { code: Option<i32> },
}

/// What the supervisor asks the application to do next.
#[derive(Clone, Copy, Debug, PartialEq, Eq, Structural)]
pub enum SupervisorAction {
    /// Spawn the backend as `launch_plan` describes it.
    Spawn,
    /// The backend runs: startup may go on to the interactive state.
    Ready { pid: u32 },
    /// Startup must stop with this error.
    Abort(SupervisorError),
    /// The request is refused; nothing changed.
    Reject(SupervisorError),
    /// The running child ended: report it; no restart follows.
    ReportExit { pid: u32, code: Option<i32> },
    /// The event does not concern the current state.
    Ignore,
}

/// The transition function: the next state and the action for an event.
pub open spec fn next(s: SupervisorState, e: SupervisorEvent) -> (SupervisorState, SupervisorAction) {
    match (s, e) {
        (SupervisorState::Idle, SupervisorEvent::Start) => (SupervisorState::Spawning, SupervisorAction::Spawn),
        (SupervisorState::Idle, _) => (s, SupervisorAction::Ignore),
        (_, SupervisorEvent::Start) => (s, SupervisorAction::Reject(SupervisorError::AlreadyStarted)),
        (SupervisorState::Spawning, SupervisorEvent::Spawned { pid }) => (
            SupervisorState::Running { pid },
            SupervisorAction::Ready { pid },
        ),
        (SupervisorState::Spawning, SupervisorEvent::SpawnFailed) => (
            SupervisorState::Failed,
            SupervisorAction::Abort(SupervisorError::SidecarSpawnFailed),
        ),
        (SupervisorState::Running { pid }, SupervisorEvent::ChildExited { code }) => (
            SupervisorState::Exited { pid, code },
            SupervisorAction::ReportExit { pid, code },
        ),
        _ => (s, SupervisorAction::Ignore),
    }
}

/// The number of backend processes alive in a state.
pub open spec fn live_children(s: SupervisorState) -> nat {
    match s {
        SupervisorState::Running { .. } => 1,
        _ => 0,
    }
}

/// The number of spawns asked for while the events are handled in order from `s`.
pub open spec fn spawns(s: SupervisorState, evs: Seq<SupervisorEvent>) -> nat
    decreases evs.len(),
{
    if evs.len() == 0 {
        0
    } else {
        let (s2, a) = next(s, evs[0]);
        (if a == SupervisorAction::Spawn { 1nat } else { 0nat }) + spawns(s2, evs.drop_first())
    }
}

/// The state reached when the events are handled in order from `s`.
pub open spec fn state_after(s: SupervisorState, evs: Seq<SupervisorEvent>) -> SupervisorState
    decreases evs.len(),
{
    if evs.len() == 0 {
        s
    } else {
        state_after(next(s, evs[0]).0, evs.drop_first())
    }
}

/// Owns the lifecycle of the application's single backend process.
pub struct Supervisor {
    state: SupervisorState,
}

impl Supervisor {
    pub closed spec fn view_state(&self) -> SupervisorState {
        self.state
    }

    /// A supervisor that has started nothing yet.
    pub fn new() -> (r: Supervisor)
        ensures
            r.view_state() == SupervisorState::Idle,
    {
        Supervisor { state: SupervisorState::Idle }
    }

    /// The current state.
    pub fn state(&self) -> (r: SupervisorState)
        ensures
            r == self.view_state(),
    {
        self.state
    }

    /// Handles one event: moves to the next state and returns what to do.
    pub fn step(&mut self, e: SupervisorEvent) -> (a: SupervisorAction)
        ensures
            (final(self).view_state(), a) == next(old(self).view_state(), e),
    {
        let (s, a) = match (self.state, e) {
            (SupervisorState::Idle, SupervisorEvent::Start) => (SupervisorState::Spawning, SupervisorAction::Spawn),
            (SupervisorState::Idle, _) => (self.state, SupervisorAction::Ignore),
            (_, SupervisorEvent::Start) => (self.state, SupervisorAction::Reject(SupervisorError::AlreadyStarted)),
            (SupervisorState::Spawning, SupervisorEvent::Spawned { pid }) => (
                SupervisorState::Running { pid },
                SupervisorAction::Ready { pid },
            ),
            (SupervisorState::Spawning, SupervisorEvent::SpawnFailed) => (
                SupervisorState::Failed,
                SupervisorAction::Abort(SupervisorError::SidecarSpawnFailed),
            ),
            (SupervisorState::Running { pid }, SupervisorEvent::ChildExited { code }) => (
                SupervisorState::Exited { pid, code },
                SupervisorAction::ReportExit { pid, code },
            ),
            _ => (self.state, SupervisorAction::Ignore),
        };
        self.state = s;
        a
    }
}

/// Once the supervisor has left `Idle` it never returns there and never asks
/// for another spawn.
pub proof fn lemma_no_spawn_after_idle(s: SupervisorState, evs: Seq<SupervisorEvent>)
    requires
        s != SupervisorState::Idle,
    ensures
        spawns(s, evs) == 0,
        state_after(s, evs) != SupervisorState::Idle,
    decreases evs.len(),
{
    if evs.len() > 0 {
        lemma_no_spawn_after_idle(next(s, evs[0]).0, evs.drop_first());
    }
}

/// Whatever the application reports, in whatever order, the supervisor asks
/// for at most one spawn in its lifetime, and at most one child is alive.
pub proof fn lemma_at_most_one_spawn(evs: Seq<SupervisorEvent>)
    ensures
        spawns(SupervisorState::Idle, evs) <= 1,
        live_children(state_after(SupervisorState::Idle, evs)) <= 1,
    decreases evs.len(),
{
    if evs.len() > 0 {
        let s2 = next(SupervisorState::Idle, evs[0]).0;
        if s2 == SupervisorState::Idle {
            lemma_at_most_one_spawn(evs.drop_first());
        } else {
            lemma_no_spawn_after_idle(s2, evs.drop_first());
        }
    }
}

/// After a successful start exactly one child is alive, and a second start is
/// rejected and changes nothing.
pub proof fn lemma_second_start_rejected(pid: u32)
    ensures
        state_after(SupervisorState::Idle, seq![SupervisorEvent::Start, SupervisorEvent::Spawned { pid }])
            == (SupervisorState::Running { pid }),
        live_children(SupervisorState::Running { pid }) == 1,
        next(SupervisorState::Running { pid }, SupervisorEvent::Start) == (
            SupervisorState::Running { pid },
            SupervisorAction::Reject(SupervisorError::AlreadyStarted),
        ),
{
    let evs = seq![SupervisorEvent::Start, SupervisorEvent::Spawned { pid }];
    assert(evs.drop_first().drop_first().len() == 0);
    assert(evs.drop_first()[0] == SupervisorEvent::Spawned { pid });
    assert(state_after(SupervisorState::Spawning, evs.drop_first()) == state_after(
        SupervisorState::Running { pid },
        evs.drop_first().drop_first(),
    ));
}

/// A failed spawn is never silent: it aborts startup with `SidecarSpawnFailed`,
/// and from then on no event brings a spawn or a ready backend.
pub proof fn lemma_failed_spawn_aborts(e: SupervisorEvent)
    ensures
        next(SupervisorState::Spawning, SupervisorEvent::SpawnFailed) == (
            SupervisorState::Failed,
            SupervisorAction::Abort(SupervisorError::SidecarSpawnFailed),
        ),
        next(SupervisorState::Failed, e).0 == SupervisorState::Failed,
        next(SupervisorState::Failed, e).1 != SupervisorAction::Spawn,
        !(next(SupervisorState::Failed, e).1 is Ready),
{
}

/// The port on which the backend serves its control protocol. The backend is
/// built to listen on the same value.
pub const CONTROL_PORT: u16 = 8765;

/// The decimal digit for `d`, for `d` below ten.
pub open spec fn digit_char(d: nat) -> char {
    seq!['0', '1', '2', '3', '4', '5', '6', '7', '8', '9'][d as int]
}

/// The decimal notation of `n`, without leading zeros.
pub open spec fn decimal(n: nat) -> Seq<char>
    decreases n,
{
    if n < 10 {
        seq![digit_char(n)]
    } else {
        decimal(n / 10).push(digit_char(n % 10))
    }
}

/// The file name of the backend built for a target: the base name, a dash,
/// and the target's platform/architecture identifier.
pub open spec fn sidecar_file_name_of(base: Seq<char>, target: Seq<char>) -> Seq<char> {
    base + seq!['-'] + target
}

/// The arguments the backend is launched with.
pub open spec fn launch_args_of(port: nat) -> Seq<Seq<char>> {
    seq![seq!['s', 'e', 'r', 'v', 'e'], seq!['-', '-', 'p', 'o', 'r', 't'], decimal(port)]
}

/// The base name under which the backend is bundled.
pub open spec fn sidecar_base_of() -> Seq<char> {
    seq!['t', 'h', 'r', 'e', 'a', 'd', 'b', 'o', 'u', 'n', 'd']
}

/// Appends the decimal notation of `n` to `out`.
fn append_decimal(out: &mut String, n: u32)
    ensures
        final(out)@ == old(out)@ + decimal(n as nat),
    decreases n,
{
    let digits = "0123456789";
    proof {
        reveal_strlit("0123456789");
    }
    let d = (n % 10) as usize;
    if n >= 10 {
        append_decimal(out, n / 10);
    }
    let one = digits.substring_char(d, d + 1);
    assert(one@ =~= seq![digit_char(d as nat)]);
    out.append(one);
    assert(final(out)@ =~= old(out)@ + decimal(n as nat));
}

/// The decimal notation of `n`.
pub fn decimal_string(n: u32) -> (r: String)
    ensures
        r@ == decimal(n as nat),
{
    let mut s = String::new();
    append_decimal(&mut s, n);
    assert(s@ =~= decimal(n as nat));
    s
}

/// The base name under which the backend is bundled.
pub fn sidecar_base() -> (r: String)
    ensures
        r@ == sidecar_base_of(),
{
    let r = String::from_str("threadbound");
    proof {
        reveal_strlit("threadbound");
    }
    assert(r@ =~= sidecar_base_of());
    r
}

/// The file name of the backend built for the target `target`, such as
/// `x86_64-unknown-linux-gnu`.
pub fn sidecar_file_name(base: &str, target: &str) -> (r: String)
    ensures
        r@ == sidecar_file_name_of(base@, target@),
{
    let mut r = String::from_str(base);
    let dash = "-";
    proof {
        reveal_strlit("-");
    }
    r.append(dash);
    r.append(target);
    assert(r@ =~= sidecar_file_name_of(base@, target@));
    r
}

/// The arguments that start the backend on `port`: `serve --port <port>`.
pub fn launch_args(port: u16) -> (r: Vec<String>)
    ensures
        r@.len() == 3,
        forall|i: int| 0 <= i < 3 ==> #[trigger] r@[i]@ == launch_args_of(port as nat)[i],
{
    let serve = String::from_str("serve");
    let flag = String::from_str("--port");
    proof {
        reveal_strlit("serve");
        reveal_strlit("--port");
    }
    let value = decimal_string(port as u32);
    let mut r: Vec<String> = Vec::new();
    r.push(serve);
    r.push(flag);
    r.push(value);
    assert(r@[0]@ =~= launch_args_of(port as nat)[0]);
    assert(r@[1]@ =~= launch_args_of(port as nat)[1]);
    r
}

/// The program and arguments of the one backend process.
pub struct LaunchPlan {
    /// The bundled base name; the runtime adds the target's identifier.
    pub program: String,
    pub args: Vec<String>,
}

/// How the backend is started: `threadbound serve --port 8765`.
pub fn launch_plan() -> (r: LaunchPlan)
    ensures
        r.program@ == sidecar_base_of(),
        r.args@.len() == 3,
        forall|i: int| 0 <= i < 3 ==> #[trigger] r.args@[i]@ == launch_args_of(CONTROL_PORT as nat)[i],
{
    LaunchPlan { program: sidecar_base(), args: launch_args(CONTROL_PORT) }
}

/// For every base name and target identifier, the file name is the base name
/// followed by exactly a dash and the identifier: both can be read back from it.
pub proof fn lemma_sidecar_name_suffix(base: Seq<char>, target: Seq<char>)
    ensures
        sidecar_file_name_of(base, target).len() == base.len() + 1 + target.len(),
        sidecar_file_name_of(base, target).subrange(0, base.len() as int) == base,
        sidecar_file_name_of(base, target)[base.len() as int] == '-',
        sidecar_file_name_of(base, target).subrange(
            base.len() + 1int,
            sidecar_file_name_of(base, target).len() as int,
        ) == target,
{
    let n = sidecar_file_name_of(base, target);
    assert(n.subrange(0, base.len() as int) =~= base);
    assert(n.subrange(base.len() + 1int, n.len() as int) =~= target);
}

/// Different target identifiers give different file names: the name
/// determines the identifier it was built for.
pub proof fn lemma_sidecar_name_injective(base: Seq<char>, t1: Seq<char>, t2: Seq<char>)
    ensures
        sidecar_file_name_of(base, t1) == sidecar_file_name_of(base, t2) ==> t1 == t2,
{
    if sidecar_file_name_of(base, t1) == sidecar_file_name_of(base, t2) {
        lemma_sidecar_name_suffix(base, t1);
        lemma_sidecar_name_suffix(base, t2);
    }
}

} // verus!
