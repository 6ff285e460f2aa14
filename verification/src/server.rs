//! The node server: what a node keeps of modules, environments and processes,
//! and how it handles the requests of other nodes.
//!
//! The server itself does no waiting. Where a request needs work that takes
//! time (fetching a module, compiling it, starting the process), the handling
//! is a job that names the next piece of work and is told how it ended.

use crate::message::{DataMessage, DataMessageView, Message, MessageView};
use crate::protocol::{Reply, Request, RequestView, Response, Spawn, SpawnView};
use std::collections::HashMap;
use vstd::prelude::*;

verus! {

broadcast use vstd::std_specs::hash::group_hash_axioms;

/// The compiled modules that a node holds, by module id. A module is
/// compiled when it is first asked for and kept from then on.
pub struct Modules<M> {
    compiled: HashMap<u64, M>,
}

impl<M> View for Modules<M> {
    type V = Map<u64, M>;

    closed spec fn view(&self) -> Map<u64, M> {
        self.compiled@
    }
}

/// The cache after `module` was offered under `module_id`: a module that is
/// there already stays, and the offered one is dropped.
pub open spec fn spec_insert_if_absent<M>(cache: Map<u64, M>, module_id: u64, module: M) -> Map<
    u64,
    M,
> {
    if cache.contains_key(module_id) {
        cache
    } else {
        cache.insert(module_id, module)
    }
}

impl<M> Modules<M> {
    /// An empty cache.
    pub fn new() -> (modules: Modules<M>)
        ensures
            modules@ == Map::<u64, M>::empty(),
    {
        Modules { compiled: HashMap::new() }
    }

    /// The compiled module with this id, if the node holds it.
    pub fn get(&self, module_id: u64) -> (found: Option<&M>)
        ensures
            match found {
                Some(module) => self@.contains_key(module_id) && *module == self@[module_id],
                None => !self@.contains_key(module_id),
            },
    {
        self.compiled.get(&module_id)
    }

    /// Puts a compiled module into the cache unless one with this id is
    /// there already, and says whether it was put in.
    pub fn insert_if_absent(&mut self, module_id: u64, module: M) -> (inserted: bool)
        ensures
            final(self)@ == spec_insert_if_absent(old(self)@, module_id, module),
            inserted == !old(self)@.contains_key(module_id),
    {
        if self.compiled.contains_key(&module_id) {
            false
        } else {
            self.compiled.insert(module_id, module);
            true
        }
    }
}

/// The processes of one environment, by process id.
pub struct Environment<P> {
    processes: HashMap<u64, P>,
}

impl<P> View for Environment<P> {
    type V = Map<u64, P>;

    closed spec fn view(&self) -> Map<u64, P> {
        self.processes@
    }
}

impl<P> Environment<P> {
    /// An environment without processes.
    pub fn new() -> (environment: Environment<P>)
        ensures
            environment@ == Map::<u64, P>::empty(),
    {
        Environment { processes: HashMap::new() }
    }

    /// The process with this id, if it belongs to the environment.
    pub fn get_process(&self, process_id: u64) -> (found: Option<&P>)
        ensures
            match found {
                Some(process) => self@.contains_key(process_id) && *process == self@[process_id],
                None => !self@.contains_key(process_id),
            },
    {
        self.processes.get(&process_id)
    }

    /// Enters a process under its id.
    pub fn add_process(&mut self, process_id: u64, process: P)
        ensures
            final(self)@ == old(self)@.insert(process_id, process),
    {
        self.processes.insert(process_id, process);
    }

    /// Takes a process out, when it has finished, and returns it.
    pub fn remove_process(&mut self, process_id: u64) -> (removed: Option<P>)
        ensures
            final(self)@ == old(self)@.remove(process_id),
            match removed {
                Some(process) => old(self)@.contains_key(process_id) && process == old(
                    self,
                )@[process_id],
                None => !old(self)@.contains_key(process_id),
            },
    {
        self.processes.remove(&process_id)
    }
}

/// The environments of a node, by environment id. An environment comes into
/// being when it is first referred to, and stays.
pub struct Environments<P> {
    envs: HashMap<u64, Environment<P>>,
}

impl<P> View for Environments<P> {
    type V = Map<u64, Map<u64, P>>;

    closed spec fn view(&self) -> Map<u64, Map<u64, P>> {
        Map::new(|id: u64| self.envs@.contains_key(id), |id: u64| self.envs@[id]@)
    }
}

/// The environments after one was referred to: it is there, empty if it is
/// new, and all else is as before.
pub open spec fn spec_get_or_create<P>(envs: Map<u64, Map<u64, P>>, id: u64) -> Map<
    u64,
    Map<u64, P>,
> {
    if envs.contains_key(id) {
        envs
    } else {
        envs.insert(id, Map::<u64, P>::empty())
    }
}

/// The environments after a process was entered into one of them.
pub open spec fn spec_add_process<P>(
    envs: Map<u64, Map<u64, P>>,
    environment_id: u64,
    process_id: u64,
    process: P,
) -> Map<u64, Map<u64, P>> {
    let with_env = spec_get_or_create(envs, environment_id);
    with_env.insert(environment_id, with_env[environment_id].insert(process_id, process))
}

/// The process that an environment holds under an id, if the environment
/// is there and holds one.
pub open spec fn spec_process<P>(
    envs: Map<u64, Map<u64, P>>,
    environment_id: u64,
    process_id: u64,
) -> Option<P> {
    if envs.contains_key(environment_id) && envs[environment_id].contains_key(process_id) {
        Some(envs[environment_id][process_id])
    } else {
        None
    }
}

impl<P> Environments<P> {
    /// No environments.
    pub fn new() -> (environments: Environments<P>)
        ensures
            environments@ == Map::<u64, Map<u64, P>>::empty(),
    {
        let environments = Environments { envs: HashMap::new() };
        assert(environments@ =~= Map::<u64, Map<u64, P>>::empty());
        environments
    }

    /// The environment with this id, if there is one.
    pub fn get(&self, id: u64) -> (found: Option<&Environment<P>>)
        ensures
            match found {
                Some(environment) => self@.contains_key(id) && environment@ == self@[id],
                None => !self@.contains_key(id),
            },
    {
        self.envs.get(&id)
    }

    /// The environment with this id. It is made, without processes, where
    /// there is none yet.
    pub fn get_or_create(&mut self, id: u64) -> (environment: &Environment<P>)
        ensures
            final(self)@ == spec_get_or_create(old(self)@, id),
            environment@ == final(self)@[id],
    {
        if !self.envs.contains_key(&id) {
            self.envs.insert(id, Environment::new());
        }
        assert(self@ =~= spec_get_or_create(old(self)@, id));
        self.envs.get(&id).unwrap()
    }

    /// The process with this id in the environment with that id.
    pub fn get_process(&self, environment_id: u64, process_id: u64) -> (found: Option<&P>)
        ensures
            match found {
                Some(process) => spec_process(self@, environment_id, process_id) == Some(*process),
                None => spec_process(self@, environment_id, process_id) is None,
            },
    {
        match self.envs.get(&environment_id) {
            Some(environment) => environment.get_process(process_id),
            None => None,
        }
    }

    /// Enters a process into an environment, which is made if need be.
    pub fn add_process(&mut self, environment_id: u64, process_id: u64, process: P)
        ensures
            final(self)@ == spec_add_process(old(self)@, environment_id, process_id, process),
    {
        let mut environment = match self.envs.remove(&environment_id) {
            Some(environment) => environment,
            None => Environment::new(),
        };
        environment.add_process(process_id, process);
        self.envs.insert(environment_id, environment);
        assert(self@ =~= spec_add_process(old(self)@, environment_id, process_id, process));
    }

    /// Takes a finished process out of its environment.
    pub fn remove_process(&mut self, environment_id: u64, process_id: u64) -> (removed: Option<P>)
        ensures
            removed == spec_process(old(self)@, environment_id, process_id),
            final(self)@ == (if old(self)@.contains_key(environment_id) {
                old(self)@.insert(environment_id, old(self)@[environment_id].remove(process_id))
            } else {
                old(self)@
            }),
    {
        match self.envs.remove(&environment_id) {
            Some(mut environment) => {
                let removed = environment.remove_process(process_id);
                self.envs.insert(environment_id, environment);
                assert(self@ =~= old(self)@.insert(
                    environment_id,
                    old(self)@[environment_id].remove(process_id),
                ));
                removed
            },
            None => {
                assert(self@ =~= old(self)@);
                None
            },
        }
    }
}

/// What a node's server works on: its environments and its modules.
pub struct ServerCtx<M, P> {
    pub envs: Environments<P>,
    pub modules: Modules<M>,
}

/// What a server holds, as plain values.
pub struct ServerView<M, P> {
    pub envs: Map<u64, Map<u64, P>>,
    pub modules: Map<u64, M>,
}

impl<M, P> View for ServerCtx<M, P> {
    type V = ServerView<M, P>;

    open spec fn view(&self) -> ServerView<M, P> {
        ServerView { envs: self.envs@, modules: self.modules@ }
    }
}

impl<M, P> ServerCtx<M, P> {
    /// A server that holds nothing yet.
    pub fn new() -> (ctx: ServerCtx<M, P>)
        ensures
            ctx@.envs == Map::<u64, Map<u64, P>>::empty(),
            ctx@.modules == Map::<u64, M>::empty(),
    {
        ServerCtx { envs: Environments::new(), modules: Modules::new() }
    }
}

/// Handles a message request: refers to the environment, looks the process
/// up in it, and returns the process together with the data message to put
/// into its mailbox. For a process that is not there the result is `None`:
/// the message is dropped and nobody is told.
pub fn handle_process_message<'a, M, P>(
    ctx: &'a mut ServerCtx<M, P>,
    environment_id: u64,
    process_id: u64,
    tag: Option<i64>,
    data: Vec<u8>,
) -> (delivery: Option<(&'a P, Message)>)
    ensures
        final(ctx)@.modules == old(ctx)@.modules,
        final(ctx)@.envs == spec_get_or_create(old(ctx)@.envs, environment_id),
        match delivery {
            Some((process, message)) => {
                &&& spec_process(old(ctx)@.envs, environment_id, process_id) == Some(*process)
                &&& message@ == MessageView::Data(DataMessageView { tag, buffer: data@ })
            },
            None => spec_process(old(ctx)@.envs, environment_id, process_id) is None,
        },
{
    let environment = ctx.envs.get_or_create(environment_id);
    match environment.get_process(process_id) {
        Some(process) => Some((process, Message::Data(DataMessage::new_from_vec(tag, data)))),
        None => None,
    }
}

/// Why a spawn request failed.
#[derive(Clone, Copy, Debug, PartialEq, Eq, Structural)]
pub enum SpawnError {
    /// The configuration bytes are not a configuration of this node.
    BadConfig,
    /// The control plane could not supply the module.
    ModuleUnavailable,
    /// The module did not compile.
    CompileFailed,
    /// The process could not be started.
    InstantiateFailed,
    /// The job was told of work that it had not asked for.
    OutOfTurn,
}

/// Where the handling of a spawn request stands.
#[derive(Clone, Copy, Debug, PartialEq, Eq, Structural)]
pub enum Stage {
    /// The configuration is being decoded.
    Config,
    /// The module's bytes are being fetched from the control plane.
    Fetch,
    /// The module is being compiled.
    Compile,
    /// The process is being started.
    Instance,
    /// The request was answered or has failed.
    Done,
}

/// The next piece of work for a spawn request.
#[derive(Clone, Copy, Debug, PartialEq, Eq, Structural)]
pub enum SpawnAction {
    /// Decode the configuration bytes of the request.
    DecodeConfig,
    /// Fetch the bytes of this module from the control plane.
    FetchModule(u64),
    /// Compile the fetched bytes of this module.
    Compile(u64),
    /// Start a process from this module, which is in the cache, in this
    /// environment, with the function and parameters of the request.
    Instantiate { environment_id: u64, module_id: u64 },
    /// Send this reply.
    Respond(Reply),
    /// Give up for this reason.
    Fail(SpawnError),
}

/// How a piece of work for a spawn request ended.
pub enum SpawnEvent<M, P> {
    /// Whether the configuration could be decoded.
    ConfigDecoded(bool),
    /// Whether the control plane supplied the module's bytes.
    ModuleFetched(bool),
    /// The compiled module, or `None` where the bytes did not compile.
    Compiled(Option<M>),
    /// The id of the new process and the process, or `None` where it could
    /// not be started.
    Instantiated(Option<(u64, P)>),
}

/// The handling of one spawn request.
#[derive(Debug)]
pub struct SpawnJob {
    msg_id: u64,
    spawn: Spawn,
    stage: Stage,
}

/// A spawn job as plain values.
pub struct SpawnJobView {
    pub msg_id: u64,
    pub spawn: SpawnView,
    pub stage: Stage,
}

impl View for SpawnJob {
    type V = SpawnJobView;

    closed spec fn view(&self) -> SpawnJobView {
        SpawnJobView { msg_id: self.msg_id, spawn: self.spawn@, stage: self.stage }
    }
}

/// What a server does with a module ready in its cache: it refers to the
/// environment of the request and has the process started.
pub open spec fn spec_instantiate<M, P>(job: SpawnJobView, ctx: ServerView<M, P>) -> (
    Stage,
    ServerView<M, P>,
    SpawnAction,
) {
    (
        Stage::Instance,
        ServerView {
            envs: spec_get_or_create(ctx.envs, job.spawn.environment_id),
            modules: ctx.modules,
        },
        SpawnAction::Instantiate {
            environment_id: job.spawn.environment_id,
            module_id: job.spawn.module_id,
        },
    )
}

/// One step of a spawn job: the stage it goes to, what the server holds
/// afterwards, and the next piece of work.
///
/// A decoded configuration leads to the module: if the cache holds it, the
/// process is started at once, else the module is fetched, then compiled,
/// then put into the cache, and then the process is started. The new process
/// is entered into its environment and its id is sent back under the id of
/// the request. Any failure ends the job, and so does an event that the job
/// did not wait for.
pub open spec fn spec_step<M, P>(
    job: SpawnJobView,
    ctx: ServerView<M, P>,
    event: SpawnEvent<M, P>,
) -> (Stage, ServerView<M, P>, SpawnAction) {
    match (job.stage, event) {
        (Stage::Config, SpawnEvent::ConfigDecoded(true)) => {
            if ctx.modules.contains_key(job.spawn.module_id) {
                spec_instantiate(job, ctx)
            } else {
                (Stage::Fetch, ctx, SpawnAction::FetchModule(job.spawn.module_id))
            }
        },
        (Stage::Config, SpawnEvent::ConfigDecoded(false)) => (
            Stage::Done,
            ctx,
            SpawnAction::Fail(SpawnError::BadConfig),
        ),
        (Stage::Fetch, SpawnEvent::ModuleFetched(true)) => (
            Stage::Compile,
            ctx,
            SpawnAction::Compile(job.spawn.module_id),
        ),
        (Stage::Fetch, SpawnEvent::ModuleFetched(false)) => (
            Stage::Done,
            ctx,
            SpawnAction::Fail(SpawnError::ModuleUnavailable),
        ),
        (Stage::Compile, SpawnEvent::Compiled(Some(module))) => spec_instantiate(
            job,
            ServerView {
                envs: ctx.envs,
                modules: spec_insert_if_absent(ctx.modules, job.spawn.module_id, module),
            },
        ),
        (Stage::Compile, SpawnEvent::Compiled(None)) => (
            Stage::Done,
            ctx,
            SpawnAction::Fail(SpawnError::CompileFailed),
        ),
        (Stage::Instance, SpawnEvent::Instantiated(Some((process_id, process)))) => (
            Stage::Done,
            ServerView {
                envs: spec_add_process(ctx.envs, job.spawn.environment_id, process_id, process),
                modules: ctx.modules,
            },
            SpawnAction::Respond(
                Reply { msg_id: job.msg_id, response: Response::Spawned(process_id) },
            ),
        ),
        (Stage::Instance, SpawnEvent::Instantiated(None)) => (
            Stage::Done,
            ctx,
            SpawnAction::Fail(SpawnError::InstantiateFailed),
        ),
        _ => (Stage::Done, ctx, SpawnAction::Fail(SpawnError::OutOfTurn)),
    }
}

impl SpawnJob {
    /// The request that the job handles.
    pub fn spawn(&self) -> (spawn: &Spawn)
        ensures
            spawn@ == self@.spawn,
    {
        &self.spawn
    }

    /// The id of the request, which the reply will carry.
    pub fn msg_id(&self) -> (id: u64)
        ensures
            id == self@.msg_id,
    {
        self.msg_id
    }

    /// Where the job stands.
    pub fn stage(&self) -> (stage: Stage)
        ensures
            stage == self@.stage,
    {
        self.stage
    }

    /// Takes in how the last piece of work ended, and returns the next.
    pub fn step<M, P>(&mut self, ctx: &mut ServerCtx<M, P>, event: SpawnEvent<M, P>) -> (action:
        SpawnAction)
        ensures
            final(self)@.msg_id == old(self)@.msg_id,
            final(self)@.spawn == old(self)@.spawn,
            (final(self)@.stage, final(ctx)@, action) == spec_step(old(self)@, old(ctx)@, event),
    {
        let environment_id = self.spawn.environment_id;
        let module_id = self.spawn.module_id;
        match (self.stage, event) {
            (Stage::Config, SpawnEvent::ConfigDecoded(true)) => {
                if self.modules_hold(ctx) {
                    ctx.envs.get_or_create(environment_id);
                    self.stage = Stage::Instance;
                    SpawnAction::Instantiate { environment_id, module_id }
                } else {
                    self.stage = Stage::Fetch;
                    SpawnAction::FetchModule(module_id)
                }
            },
            (Stage::Config, SpawnEvent::ConfigDecoded(false)) => {
                self.stage = Stage::Done;
                SpawnAction::Fail(SpawnError::BadConfig)
            },
            (Stage::Fetch, SpawnEvent::ModuleFetched(true)) => {
                self.stage = Stage::Compile;
                SpawnAction::Compile(module_id)
            },
            (Stage::Fetch, SpawnEvent::ModuleFetched(false)) => {
                self.stage = Stage::Done;
                SpawnAction::Fail(SpawnError::ModuleUnavailable)
            },
            (Stage::Compile, SpawnEvent::Compiled(Some(module))) => {
                ctx.modules.insert_if_absent(module_id, module);
                ctx.envs.get_or_create(environment_id);
                self.stage = Stage::Instance;
                SpawnAction::Instantiate { environment_id, module_id }
            },
            (Stage::Compile, SpawnEvent::Compiled(None)) => {
                self.stage = Stage::Done;
                SpawnAction::Fail(SpawnError::CompileFailed)
            },
            (Stage::Instance, SpawnEvent::Instantiated(Some((process_id, process)))) => {
                ctx.envs.add_process(environment_id, process_id, process);
                self.stage = Stage::Done;
                SpawnAction::Respond(
                    Reply { msg_id: self.msg_id, response: Response::Spawned(process_id) },
                )
            },
            (Stage::Instance, SpawnEvent::Instantiated(None)) => {
                self.stage = Stage::Done;
                SpawnAction::Fail(SpawnError::InstantiateFailed)
            },
            _ => {
                self.stage = Stage::Done;
                SpawnAction::Fail(SpawnError::OutOfTurn)
            },
        }
    }

    /// Whether the cache holds the module of the request.
    fn modules_hold<M, P>(&self, ctx: &ServerCtx<M, P>) -> (held: bool)
        ensures
            held == ctx@.modules.contains_key(self@.spawn.module_id),
    {
        ctx.modules.get(self.spawn.module_id).is_some()
    }
}

/// Begins the handling of a spawn request that came under the id `msg_id`.
/// The first piece of work is to decode the configuration.
pub fn handle_spawn(msg_id: u64, spawn: Spawn) -> (begun: (SpawnJob, SpawnAction))
    ensures
        begun.0@ == (SpawnJobView { msg_id, spawn: spawn@, stage: Stage::Config }),
        begun.1 == SpawnAction::DecodeConfig,
{
    (SpawnJob { msg_id, spawn, stage: Stage::Config }, SpawnAction::DecodeConfig)
}

/// What the server does with a request.
pub enum Handling<'a, P> {
    /// A spawn request: the job that handles it, and its first piece of work.
    Spawning(SpawnJob, SpawnAction),
    /// A message request for a process that is there: put the message into
    /// the mailbox of the process. Nothing is sent back.
    Deliver(&'a P, Message),
    /// A message request for a process that is not there. Nothing is done
    /// and nothing is sent back.
    Dropped,
}

/// Handles one request that was read from a connection under the id
/// `msg_id`.
pub fn handle_message<'a, M, P>(ctx: &'a mut ServerCtx<M, P>, msg_id: u64, msg: Request) -> (handling:
    Handling<'a, P>)
    ensures
        final(ctx)@.modules == old(ctx)@.modules,
        forall|e: u64, p: u64|
            spec_process(final(ctx)@.envs, e, p) == spec_process(old(ctx)@.envs, e, p),
        match msg@ {
            RequestView::Spawn(spawn) => {
                &&& final(ctx)@.envs == old(ctx)@.envs
                &&& handling matches Handling::Spawning(job, action)
                &&& job@ == (SpawnJobView { msg_id, spawn, stage: Stage::Config })
                &&& action == SpawnAction::DecodeConfig
            },
            RequestView::Message { environment_id, process_id, tag, data } => {
                &&& final(ctx)@.envs == spec_get_or_create(old(ctx)@.envs, environment_id)
                &&& match spec_process(old(ctx)@.envs, environment_id, process_id) {
                    Some(target) => {
                        &&& handling matches Handling::Deliver(process, message)
                        &&& *process == target
                        &&& message@ == MessageView::Data(DataMessageView { tag, buffer: data })
                    },
                    None => handling is Dropped,
                }
            },
        },
{
    match msg {
        Request::Spawn(spawn) => {
            let (job, action) = handle_spawn(msg_id, spawn);
            Handling::Spawning(job, action)
        },
        Request::Message { environment_id, process_id, tag, data } => {
            proof {
                lemma_referring_keeps_processes(ctx@.envs, environment_id);
            }
            match handle_process_message(ctx, environment_id, process_id, tag, data) {
                Some((process, message)) => Handling::Deliver(process, message),
                None => Handling::Dropped,
            }
        },
    }
}

/// Referring to an environment changes no process: whatever was to be found
/// under an environment id and a process id before is found there after, and
/// nothing else. So a message request for a process that is not there, the
/// one kind of request that is dropped, leaves every process as it was.
pub proof fn lemma_referring_keeps_processes<P>(envs: Map<u64, Map<u64, P>>, environment_id: u64)
    ensures
        forall|e: u64, p: u64|
            spec_process(spec_get_or_create(envs, environment_id), e, p) == spec_process(
                envs,
                e,
                p,
            ),
{
}

/// No step of a spawn job takes a module out of the cache or puts another in
/// its place.
pub proof fn lemma_cache_only_grows<M, P>(
    job: SpawnJobView,
    ctx: ServerView<M, P>,
    event: SpawnEvent<M, P>,
    module_id: u64,
)
    requires
        ctx.modules.contains_key(module_id),
    ensures
        spec_step(job, ctx, event).1.modules.contains_key(module_id),
        spec_step(job, ctx, event).1.modules[module_id] == ctx.modules[module_id],
{
}

/// The job as it stands after a step.
pub open spec fn spec_advance(job: SpawnJobView, stage: Stage) -> SpawnJobView {
    SpawnJobView { msg_id: job.msg_id, spawn: job.spawn, stage }
}

/// A spawn of a module that the node does not hold fetches and compiles it
/// once, and only then starts the process; a later spawn of the same module
/// on the same node starts its process without fetching.
///
/// `first` and `second` are two fresh jobs for the same module, `module` is
/// what the compiler gave and `process` the process that was started under
/// `process_id`.
pub proof fn lemma_module_resolved_once<M, P>(
    ctx: ServerView<M, P>,
    first: SpawnJobView,
    second: SpawnJobView,
    module: M,
    process_id: u64,
    process: P,
)
    requires
        first.stage == Stage::Config,
        second.stage == Stage::Config,
        first.spawn.module_id == second.spawn.module_id,
        !ctx.modules.contains_key(first.spawn.module_id),
    ensures
        ({
            let id = first.spawn.module_id;
            let decoded = spec_step(first, ctx, SpawnEvent::ConfigDecoded(true));
            let fetched = spec_step(
                spec_advance(first, decoded.0),
                decoded.1,
                SpawnEvent::ModuleFetched(true),
            );
            let compiled = spec_step(
                spec_advance(first, fetched.0),
                fetched.1,
                SpawnEvent::Compiled(Some(module)),
            );
            let started = spec_step(
                spec_advance(first, compiled.0),
                compiled.1,
                SpawnEvent::Instantiated(Some((process_id, process))),
            );
            let again = spec_step(second, started.1, SpawnEvent::ConfigDecoded(true));
            &&& decoded.2 == SpawnAction::FetchModule(id)
            &&& fetched.2 == SpawnAction::Compile(id)
            &&& compiled.2 == SpawnAction::Instantiate {
                environment_id: first.spawn.environment_id,
                module_id: id,
            }
            &&& compiled.1.modules == ctx.modules.insert(id, module)
            &&& started.2 == SpawnAction::Respond(
                Reply { msg_id: first.msg_id, response: Response::Spawned(process_id) },
            )
            &&& spec_process(started.1.envs, first.spawn.environment_id, process_id) == Some(process)
            &&& again.2 == SpawnAction::Instantiate {
                environment_id: second.spawn.environment_id,
                module_id: id,
            }
            &&& again.1.modules == started.1.modules
        }),
{
}

} // verus!
