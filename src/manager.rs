//! A manager that owns at most one running server instance.
use vstd::prelude::*;

use actix_web::dev::Server;

verus! {

/// Declares actix-server's `Server` (re-exported as `actix_web::dev::Server`):
/// the handle of a running server, a channel to its command loop. Nothing is
/// assumed of it; the manager only holds it and hands it back.
#[verifier::external_type_specification]
#[verifier::external_body]
pub struct ExServer(Server);

/// Declares std's `io::Error`, which a `Server` handle yields when awaited.
/// Nothing is assumed of it.
#[verifier::external_type_specification]
#[verifier::external_body]
pub struct ExIoError(std::io::Error);

/// A request made of a manager.
#[derive(Debug, Clone, Copy, PartialEq, Eq)]
pub enum Command {
    Start,
    Stop,
}

/// A start launches a new instance only on an idle manager.
pub open spec fn start_accepted(running: bool) -> bool {
    !running
}

/// A stop shuts an instance down only on a running manager.
pub open spec fn stop_releases(running: bool) -> bool {
    running
}

/// Whether the manager runs an instance after the command: a start leaves one
/// running (the new one, or the one that refused it), a stop leaves none.
pub open spec fn after(running: bool, c: Command) -> bool {
    match c {
        Command::Start => true,
        Command::Stop => false,
    }
}

/// Whether the manager runs an instance after a sequence of commands.
pub open spec fn after_all(running: bool, cmds: Seq<Command>) -> bool
    decreases cmds.len(),
{
    if cmds.len() == 0 {
        running
    } else {
        after_all(after(running, cmds[0]), cmds.drop_first())
    }
}

/// How many instances a sequence of commands launches.
pub open spec fn launched(running: bool, cmds: Seq<Command>) -> int
    decreases cmds.len(),
{
    if cmds.len() == 0 {
        0
    } else {
        let c = cmds[0];
        (if c == Command::Start && start_accepted(running) { 1int } else { 0int })
            + launched(after(running, c), cmds.drop_first())
    }
}

/// How many instances a sequence of commands shuts down.
pub open spec fn released(running: bool, cmds: Seq<Command>) -> int
    decreases cmds.len(),
{
    if cmds.len() == 0 {
        0
    } else {
        let c = cmds[0];
        (if c == Command::Stop && stop_releases(running) { 1int } else { 0int })
            + released(after(running, c), cmds.drop_first())
    }
}

/// The instances alive after a sequence of commands: those alive before, plus
/// those launched, minus those shut down.
pub open spec fn live_instances(running: bool, cmds: Seq<Command>) -> int {
    (if running { 1int } else { 0int }) + launched(running, cmds) - released(running, cmds)
}

/// Whatever sequence of starts and stops a single caller issues, at most one
/// instance is ever alive, and one is alive exactly when the manager says it
/// is running.
pub proof fn law_at_most_one_instance(running: bool, cmds: Seq<Command>)
    ensures
        0 <= live_instances(running, cmds) <= 1,
        live_instances(running, cmds) == (if after_all(running, cmds) { 1int } else { 0int }),
    decreases cmds.len(),
{
    if cmds.len() > 0 {
        law_at_most_one_instance(after(running, cmds[0]), cmds.drop_first());
    }
}

/// Stop is idempotent: a second stop finds nothing to shut down and leaves the
/// manager as the first one left it.
pub proof fn law_stop_idempotent(running: bool)
    ensures
        !stop_releases(after(running, Command::Stop)),
        after(after(running, Command::Stop), Command::Stop) == after(running, Command::Stop),
{
}

/// After a stop, a start is always accepted.
pub proof fn law_restart_after_stop(running: bool)
    ensures
        start_accepted(after(running, Command::Stop)),
{
}

/// Owns the handle of the running server instance, if there is one.
#[derive(Debug)]
pub struct ApiManager {
    server: Option<Server>,
}

/// The refusal of a start while an instance is already running. It carries the
/// handle that was offered, so that the caller can shut that instance down.
#[derive(Debug)]
pub struct AlreadyRunning {
    pub rejected: Server,
}

impl ApiManager {
    /// The handle that the manager holds.
    pub closed spec fn handle(&self) -> Option<Server> {
        self.server
    }

    /// Whether an instance is running.
    pub open spec fn running(&self) -> bool {
        self.handle() is Some
    }

    /// A manager with no instance.
    pub fn new() -> (r: Self)
        ensures
            r.handle() is None,
    {
        ApiManager { server: None }
    }

    /// Whether an instance is running.
    pub fn is_running(&self) -> (r: bool)
        ensures
            r == self.running(),
    {
        self.server.is_some()
    }

    /// Takes over the handle of a freshly launched instance. A start while an
    /// instance is running is refused and leaves the manager as it was.
    pub fn start_server(&mut self, server: Server) -> (r: Result<(), AlreadyRunning>)
        ensures
            r is Ok <==> start_accepted(old(self).running()),
            final(self).running() == after(old(self).running(), Command::Start),
            r is Ok ==> final(self).handle() == Some(server),
            r is Err ==> *final(self) == *old(self) && r->Err_0.rejected == server,
    {
        if self.server.is_some() {
            Err(AlreadyRunning { rejected: server })
        } else {
            self.server = Some(server);
            Ok(())
        }
    }

    /// Takes the handle of the running instance, leaving the manager idle. On
    /// an idle manager it does nothing and returns `None`: there is nothing to
    /// shut down and nothing to report.
    pub fn stop_server(&mut self) -> (r: Option<Server>)
        ensures
            r == old(self).handle(),
            final(self).handle() is None,
            r is Some <==> stop_releases(old(self).running()),
            final(self).running() == after(old(self).running(), Command::Stop),
    {
        self.server.take()
    }
}

impl Default for ApiManager {
    fn default() -> (r: Self)
        ensures
            r.handle() is None,
    {
        ApiManager::new()
    }
}

} // verus!
