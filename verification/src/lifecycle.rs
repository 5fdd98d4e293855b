//! Communicators come and go.
use crate::config::Config;
use crate::counters::CounterTable;
use crate::daemon::{Message, MessageView};
use crate::nccl_metadata::NcclResult;
use crate::profiler::{Communicator, Version};
use vstd::prelude::*;

verus! {

/// The event kinds of NCCL's profiler interface, as bits of the activation
/// mask.
pub const PROFILE_GROUP: u32 = 1;

pub const PROFILE_COLL: u32 = 2;

pub const PROFILE_P2P: u32 = 4;

pub const PROFILE_PROXY_OP: u32 = 8;

pub const PROFILE_PROXY_STEP: u32 = 16;

pub const PROFILE_KERNEL_CH: u32 = 64;

/// What the process keeps over all communicators.
#[derive(Debug, Clone, Copy)]
pub struct InitState {
    /// How many communicators are initialized.
    pub init_count: usize,
    /// The profiler was created; it is kept from then on.
    pub profiler_created: bool,
}

impl InitState {
    /// The profiler exists while a communicator is initialized.
    pub open spec fn wf(&self) -> bool {
        self.init_count > 0 ==> self.profiler_created
    }

    /// Nothing was initialized yet.
    pub fn new() -> (r: Self)
        ensures
            r.wf(),
            r == (InitState { init_count: 0, profiler_created: false }),
    {
        InitState { init_count: 0, profiler_created: false }
    }
}

/// What initializing a communicator asks for, to be done in this order.
#[derive(Debug)]
pub struct InitActions {
    pub init_logger: bool,
    /// Create the profiler, for this API version.
    pub create_profiler: Option<Version>,
    pub spawn_daemon: bool,
    /// Tell the daemon of the communicator.
    pub announce: Option<Message>,
}

/// What finalizing a communicator asks for, to be done in this order.
#[derive(Debug)]
pub struct FinalizeActions {
    /// Tell the daemon that the communicator is gone.
    pub announce: Option<Message>,
    pub join_daemon: bool,
}

/// Telemetry is turned on.
pub open spec fn telemetry_on(config: Config) -> bool {
    config.telemetry_mode > 0
}

/// The events that the profiler asks for in all API versions.
pub open spec fn common_mask(config: Config) -> u32 {
    PROFILE_GROUP | PROFILE_COLL | PROFILE_P2P | PROFILE_PROXY_OP | if config.track_kernel_ch {
        PROFILE_KERNEL_CH
    } else {
        0
    }
}

/// The events that the profiler asks for where NCCL reports steps of its own.
pub open spec fn mask_v4(config: Config) -> u32 {
    common_mask(config) | if config.track_steps || config.aggregate_steps {
        PROFILE_PROXY_STEP
    } else {
        0
    }
}

/// One more communicator is initialized.
pub open spec fn initialized(config: Config, init: InitState) -> InitState {
    if telemetry_on(config) {
        InitState { init_count: (init.init_count + 1) as usize, profiler_created: true }
    } else {
        init
    }
}

/// The communicator is the first one, so the profiler has to run.
pub open spec fn starts_profiler(config: Config, init: InitState) -> bool {
    telemetry_on(config) && init.init_count == 0
}

/// The profiler has to be created: no earlier communicator did.
pub open spec fn creates_profiler(config: Config, init: InitState) -> bool {
    starts_profiler(config, init) && !init.profiler_created
}

fn count_init(config: &Config, init: &mut InitState) -> (r: bool)
    requires
        old(init).wf(),
        telemetry_on(*config) ==> old(init).init_count < usize::MAX,
    ensures
        *final(init) == initialized(*config, *old(init)),
        r == starts_profiler(*config, *old(init)),
{
    if config.telemetry_mode > 0 {
        let first = init.init_count == 0;
        if first {
            init.profiler_created = true;
        }
        init.init_count = init.init_count + 1;
        first
    } else {
        false
    }
}

fn build_common_mask(config: &Config) -> (r: u32)
    ensures
        r == common_mask(*config),
{
    let kernel: u32 = if config.track_kernel_ch {
        PROFILE_KERNEL_CH
    } else {
        0
    };
    PROFILE_GROUP | PROFILE_COLL | PROFILE_P2P | PROFILE_PROXY_OP | kernel
}

/// What initializing a communicator does; its byte counter is the one that
/// follows `counters` others.
pub open spec fn comm_initialized(
    config: Config,
    version: Version,
    before: InitState,
    after: InitState,
    mask: i32,
    counters: nat,
    comm: Communicator,
    actions: InitActions,
) -> bool {
    &&& mask == if telemetry_on(config) {
        common_mask(config) as i32
    } else {
        0
    }
    &&& after == initialized(config, before)
    &&& comm.comm_hash is None
    &&& comm.total_net_bytes == counters
    &&& actions.init_logger == starts_profiler(config, before)
    &&& actions.create_profiler == if creates_profiler(config, before) {
        Some(version)
    } else {
        None
    }
    &&& actions.spawn_daemon == starts_profiler(config, before)
    &&& actions.announce is None
}

/// What initializing a named communicator does; its byte counter is the one
/// that follows `counters` others.
pub open spec fn comm_initialized_v4(
    config: Config,
    version: Version,
    comm_hash: u64,
    before: InitState,
    after: InitState,
    mask: i32,
    counters: nat,
    comm: Communicator,
    actions: InitActions,
) -> bool {
    &&& mask == if telemetry_on(config) {
        mask_v4(config) as i32
    } else {
        0
    }
    &&& after == initialized(config, before)
    &&& comm.comm_hash == Some(comm_hash)
    &&& comm.total_net_bytes == counters
    &&& !actions.init_logger
    &&& actions.create_profiler == if creates_profiler(config, before) {
        Some(version)
    } else {
        None
    }
    &&& actions.spawn_daemon == starts_profiler(config, before)
    &&& actions.announce is Some <==> config.heartbeat_collective_progress
    &&& actions.announce matches Some(message) ==> message@ == MessageView::CommOpen(comm)
}

/// NCCL initializes a communicator. The first one starts the daemon, and
/// creates the profiler unless an earlier cycle did.
pub fn init_handler(
    e_activation_mask: &mut i32,
    version: Version,
    config: &Config,
    init: &mut InitState,
    counters: &mut CounterTable,
) -> (r: NcclResult<(Communicator, InitActions)>)
    requires
        old(init).wf(),
        telemetry_on(*config) ==> old(init).init_count < usize::MAX,
    ensures
        final(init).wf(),
        final(counters)@ == old(counters)@.push(0),
        r matches Ok((comm, actions)) && comm_initialized(
            *config,
            version,
            *old(init),
            *final(init),
            *final(e_activation_mask),
            old(counters)@.len(),
            comm,
            actions,
        ),
{
    let created = init.profiler_created;
    let first = count_init(config, init);
    let mask: u32 = if config.telemetry_mode > 0 {
        build_common_mask(config)
    } else {
        0
    };
    *e_activation_mask = #[verifier::truncate]
    (mask as i32);
    let create_profiler = if first && !created {
        Some(version)
    } else {
        None
    };
    let comm = Communicator::new(counters);
    Ok((comm, InitActions { init_logger: first, create_profiler, spawn_daemon: first, announce: None }))
}

/// NCCL initializes a communicator and names it. Besides what
/// [`init_handler`] does, steps are asked for where they are tracked, and the
/// daemon hears of the communicator where progress is reported.
pub fn init_handler_v4(
    e_activation_mask: &mut i32,
    comm_hash: u64,
    version: Version,
    config: &Config,
    init: &mut InitState,
    counters: &mut CounterTable,
) -> (r: NcclResult<(Communicator, InitActions)>)
    requires
        old(init).wf(),
        telemetry_on(*config) ==> old(init).init_count < usize::MAX,
        config.heartbeat_collective_progress ==> telemetry_on(*config)
            || old(init).profiler_created,
    ensures
        final(init).wf(),
        final(counters)@ == old(counters)@.push(0),
        r matches Ok((comm, actions)) && comm_initialized_v4(
            *config,
            version,
            comm_hash,
            *old(init),
            *final(init),
            *final(e_activation_mask),
            old(counters)@.len(),
            comm,
            actions,
        ),
{
    let created = init.profiler_created;
    let first = count_init(config, init);
    let mask: u32 = if config.telemetry_mode > 0 {
        let steps: u32 = if config.track_steps || config.aggregate_steps {
            PROFILE_PROXY_STEP
        } else {
            0
        };
        build_common_mask(config) | steps
    } else {
        0
    };
    *e_activation_mask = #[verifier::truncate]
    (mask as i32);
    let create_profiler = if first && !created {
        Some(version)
    } else {
        None
    };
    let mut comm = Communicator::new(counters);
    comm.comm_hash = Some(comm_hash);
    let announce = if config.heartbeat_collective_progress {
        Some(Message::CommOpen(comm))
    } else {
        None
    };
    Ok((comm, InitActions { init_logger: false, create_profiler, spawn_daemon: first, announce }))
}

/// One communicator less is initialized.
pub open spec fn finalized(config: Config, init: InitState) -> InitState {
    if telemetry_on(config) {
        InitState { init_count: (init.init_count - 1) as usize, ..init }
    } else {
        init
    }
}

/// The communicator is the last one, so the daemon has to stop.
pub open spec fn stops_daemon(config: Config, init: InitState) -> bool {
    telemetry_on(config) && init.init_count == 1
}

/// What finalizing a communicator does.
pub open spec fn comm_finalized(
    comm: Communicator,
    config: Config,
    before: InitState,
    after: InitState,
    actions: FinalizeActions,
) -> bool {
    &&& after == finalized(config, before)
    &&& actions.join_daemon == stops_daemon(config, before)
    &&& actions.announce is Some <==> telemetry_on(config) && comm.comm_hash is Some
    &&& actions.announce matches Some(message) ==> message@ == MessageView::CommClose(
        comm.comm_hash->0,
    )
}

/// NCCL finalizes a communicator: the daemon hears of it, and is stopped
/// after the last one. The profiler stays.
pub fn finalize_handler(comm: Communicator, config: &Config, init: &mut InitState) -> (r: NcclResult<
    FinalizeActions,
>)
    requires
        old(init).wf(),
        telemetry_on(*config) ==> old(init).init_count > 0,
    ensures
        final(init).wf(),
        r matches Ok(actions) && comm_finalized(comm, *config, *old(init), *final(init), actions),
{
    if config.telemetry_mode > 0 {
        let announce = match comm.comm_hash {
            Some(comm_hash) => Some(Message::CommClose(comm_hash)),
            None => None,
        };
        let join_daemon = init.init_count == 1;
        init.init_count = init.init_count - 1;
        Ok(FinalizeActions { announce, join_daemon })
    } else {
        Ok(FinalizeActions { announce: None, join_daemon: false })
    }
}

/// An event kind is asked for exactly where the settings want it.
pub proof fn law_mask_follows_settings(config: Config)
    ensures
        common_mask(config) & PROFILE_GROUP != 0,
        common_mask(config) & PROFILE_COLL != 0,
        common_mask(config) & PROFILE_P2P != 0,
        common_mask(config) & PROFILE_PROXY_OP != 0,
        common_mask(config) & PROFILE_PROXY_STEP == 0,
        common_mask(config) & PROFILE_KERNEL_CH != 0 <==> config.track_kernel_ch,
        mask_v4(config) & PROFILE_PROXY_STEP != 0 <==> config.track_steps || config.aggregate_steps,
        mask_v4(config) & !PROFILE_PROXY_STEP == common_mask(config),
{
    let kernel: u32 = if config.track_kernel_ch {
        64
    } else {
        0
    };
    let steps: u32 = if config.track_steps || config.aggregate_steps {
        16
    } else {
        0
    };
    let common: u32 = 1u32 | 2 | 4 | 8 | kernel;
    let all: u32 = common | steps;
    assert(common & 1 != 0 && common & 2 != 0 && common & 4 != 0 && common & 8 != 0 && common & 16
        == 0 && (common & 64 != 0 <==> kernel == 64) && (all & 16 != 0 <==> steps == 16) && all
        & !16u32 == common) by (bit_vector)
        requires
            kernel == 64 || kernel == 0,
            steps == 16 || steps == 0,
            common == 1u32 | 2 | 4 | 8 | kernel,
            all == common | steps,
    ;
}

/// Initializing and then finalizing a communicator leaves as many initialized
/// as before; the daemon is stopped if and only if it was started.
pub proof fn law_finalize_undoes_init(config: Config, init: InitState)
    requires
        init.init_count < usize::MAX,
    ensures
        finalized(config, initialized(config, init)).init_count == init.init_count,
        stops_daemon(config, initialized(config, init)) == starts_profiler(config, init),
{
}

/// Whether a communicator comes or goes.
pub enum CommChange {
    Init,
    Finalize,
}

/// What communicators that come and go leave: the counts, and whether the
/// daemon runs.
pub open spec fn after_changes(config: Config, changes: Seq<CommChange>) -> (InitState, bool)
    decreases changes.len(),
{
    if changes.len() == 0 {
        (InitState { init_count: 0, profiler_created: false }, false)
    } else {
        let (init, running) = after_changes(config, changes.drop_last());
        match changes.last() {
            CommChange::Init => (
                initialized(config, init),
                running || starts_profiler(config, init),
            ),
            CommChange::Finalize => (
                finalized(config, init),
                running && !stops_daemon(config, init),
            ),
        }
    }
}

/// At any time, no more communicators were finalized than initialized.
pub open spec fn balanced(config: Config, changes: Seq<CommChange>) -> bool
    decreases changes.len(),
{
    changes.len() > 0 ==> {
        let init = after_changes(config, changes.drop_last()).0;
        &&& balanced(config, changes.drop_last())
        &&& changes.last() is Init ==> init.init_count < usize::MAX
        &&& changes.last() is Finalize && telemetry_on(config) ==> init.init_count > 0
    }
}

/// However communicators come and go, the daemon runs exactly while one is
/// initialized, and the profiler exists whenever the daemon runs.
pub proof fn law_daemon_runs_while_initialized(config: Config, changes: Seq<CommChange>)
    requires
        balanced(config, changes),
    ensures
        after_changes(config, changes).1 == (after_changes(config, changes).0.init_count > 0),
        after_changes(config, changes).0.init_count > 0 ==> after_changes(
            config,
            changes,
        ).0.profiler_created,
    decreases changes.len(),
{
    if changes.len() > 0 {
        law_daemon_runs_while_initialized(config, changes.drop_last());
    }
}

/// How often the profiler is created while communicators come and go.
pub open spec fn creations(config: Config, changes: Seq<CommChange>) -> int
    decreases changes.len(),
{
    if changes.len() == 0 {
        0
    } else {
        let init = after_changes(config, changes.drop_last()).0;
        creations(config, changes.drop_last()) + if changes.last() is Init && creates_profiler(
            config,
            init,
        ) {
            1int
        } else {
            0int
        }
    }
}

/// The profiler is created at most once, however often the daemon is started
/// and stopped.
pub proof fn law_profiler_is_created_once(config: Config, changes: Seq<CommChange>)
    requires
        balanced(config, changes),
    ensures
        creations(config, changes) == if after_changes(config, changes).0.profiler_created {
            1int
        } else {
            0int
        },
    decreases changes.len(),
{
    if changes.len() > 0 {
        law_profiler_is_created_once(config, changes.drop_last());
        law_daemon_runs_while_initialized(config, changes.drop_last());
    }
}

} // verus!
