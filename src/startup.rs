use vstd::prelude::*;

verus! {

/// The stages of bringing up a client, in order.
#[derive(Clone, Copy, Debug, PartialEq, Eq, Structural)]
pub enum StartupStage {
    /// Create the engine configuration and fill it in.
    CreateConfig,
    /// Create the client from the configuration and set its log level.
    CreateClient,
    /// Create the probe configuration and set its start delay.
    CreateProbeConfig,
    /// Start the probe on the client.
    StartProbe,
}

/// An engine object that must be released when no longer needed.
#[derive(Clone, Copy, Debug, PartialEq, Eq, Structural)]
pub enum EngineObject {
    Config,
    Client,
    ProbeConfig,
}

/// Which stage of bringing up a client failed.
#[derive(Clone, Copy, Debug, PartialEq, Eq, Structural)]
pub enum StartupError {
    ConfigCreationFailed,
    ClientCreationFailed,
    ProbeConfigCreationFailed,
    ProbeStartFailed,
}

pub open spec fn error_of(s: StartupStage) -> StartupError {
    match s {
        StartupStage::CreateConfig => StartupError::ConfigCreationFailed,
        StartupStage::CreateClient => StartupError::ClientCreationFailed,
        StartupStage::CreateProbeConfig => StartupError::ProbeConfigCreationFailed,
        StartupStage::StartProbe => StartupError::ProbeStartFailed,
    }
}

pub open spec fn next_of(s: StartupStage) -> Option<StartupStage> {
    match s {
        StartupStage::CreateConfig => Some(StartupStage::CreateClient),
        StartupStage::CreateClient => Some(StartupStage::CreateProbeConfig),
        StartupStage::CreateProbeConfig => Some(StartupStage::StartProbe),
        StartupStage::StartProbe => None,
    }
}

/// The objects that exist when a stage begins.
pub open spec fn held_before(s: StartupStage) -> Set<EngineObject> {
    match s {
        StartupStage::CreateConfig => Set::empty(),
        StartupStage::CreateClient => set![EngineObject::Config],
        StartupStage::CreateProbeConfig => set![EngineObject::Client],
        StartupStage::StartProbe => set![EngineObject::Client, EngineObject::ProbeConfig],
    }
}

/// The objects a stage creates when it succeeds.
pub open spec fn created_by(s: StartupStage) -> Set<EngineObject> {
    match s {
        StartupStage::CreateConfig => set![EngineObject::Config],
        StartupStage::CreateClient => set![EngineObject::Client],
        StartupStage::CreateProbeConfig => set![EngineObject::ProbeConfig],
        StartupStage::StartProbe => Set::empty(),
    }
}

/// The objects released once a stage has succeeded: the configuration as
/// soon as the client has taken it in, the probe configuration as soon as
/// the probe has started.
pub open spec fn released_after(s: StartupStage) -> Seq<EngineObject> {
    match s {
        StartupStage::CreateClient => seq![EngineObject::Config],
        StartupStage::StartProbe => seq![EngineObject::ProbeConfig],
        _ => Seq::empty(),
    }
}

/// The objects released when a stage fails, newest first.
pub open spec fn released_on_failure(s: StartupStage) -> Seq<EngineObject> {
    match s {
        StartupStage::CreateConfig => Seq::empty(),
        StartupStage::CreateClient => seq![EngineObject::Config],
        StartupStage::CreateProbeConfig => seq![EngineObject::Client],
        StartupStage::StartProbe => seq![EngineObject::ProbeConfig, EngineObject::Client],
    }
}

/// How bringing up the client goes on after a stage.
#[derive(Clone, Copy, Debug, PartialEq, Eq, Structural)]
pub enum StartupOutcome {
    /// Run this stage next.
    Continue(StartupStage),
    /// The client runs, with its probe started.
    Ready,
    /// Bringing up the client failed at this stage.
    Failed(StartupError),
}

/// What to do after a stage: the objects to release, in order, and how to
/// go on.
#[derive(Clone, Debug)]
pub struct StartupStep {
    pub release: Vec<EngineObject>,
    pub outcome: StartupOutcome,
}

/// The first stage of bringing up a client.
pub fn first_stage() -> (r: StartupStage)
    ensures
        r == StartupStage::CreateConfig,
        held_before(r).is_empty(),
{
    StartupStage::CreateConfig
}

/// Decides what follows a stage that succeeded or failed. A failure
/// releases every object that exists and reports the failing stage; a
/// success releases what is no longer needed and moves on.
pub fn after_stage(stage: StartupStage, succeeded: bool) -> (r: StartupStep)
    ensures
        succeeded ==> r.release@ == released_after(stage) && r.outcome == match next_of(stage) {
            Some(n) => StartupOutcome::Continue(n),
            None => StartupOutcome::Ready,
        },
        !succeeded ==> r.release@ == released_on_failure(stage) && r.outcome
            == StartupOutcome::Failed(error_of(stage)),
{
    let mut release: Vec<EngineObject> = Vec::new();
    if succeeded {
        let outcome = match stage {
            StartupStage::CreateConfig => StartupOutcome::Continue(StartupStage::CreateClient),
            StartupStage::CreateClient => {
                release.push(EngineObject::Config);
                StartupOutcome::Continue(StartupStage::CreateProbeConfig)
            },
            StartupStage::CreateProbeConfig => StartupOutcome::Continue(StartupStage::StartProbe),
            StartupStage::StartProbe => {
                release.push(EngineObject::ProbeConfig);
                StartupOutcome::Ready
            },
        };
        assert(release@ =~= released_after(stage));
        StartupStep { release, outcome }
    } else {
        let error = match stage {
            StartupStage::CreateConfig => StartupError::ConfigCreationFailed,
            StartupStage::CreateClient => {
                release.push(EngineObject::Config);
                StartupError::ClientCreationFailed
            },
            StartupStage::CreateProbeConfig => {
                release.push(EngineObject::Client);
                StartupError::ProbeConfigCreationFailed
            },
            StartupStage::StartProbe => {
                release.push(EngineObject::ProbeConfig);
                release.push(EngineObject::Client);
                StartupError::ProbeStartFailed
            },
        };
        assert(release@ =~= released_on_failure(stage));
        StartupStep { release, outcome: StartupOutcome::Failed(error) }
    }
}

/// Bringing up a client leaves nothing dangling and releases nothing twice:
/// a failed stage releases each existing object exactly once; a successful
/// stage hands the next one exactly what it held and created, less what it
/// released; once the probe has started only the client remains. Each
/// failing stage has its own error.
pub proof fn lemma_startup_releases(s: StartupStage, t: StartupStage)
    ensures
        released_on_failure(s).to_set() == held_before(s),
        released_on_failure(s).no_duplicates(),
        released_after(s).no_duplicates(),
        next_of(s) matches Some(n) ==> held_before(n) == held_before(s).union(created_by(s)).difference(
            released_after(s).to_set(),
        ),
        next_of(s) is None ==> held_before(s).union(created_by(s)).difference(
            released_after(s).to_set(),
        ) == set![EngineObject::Client],
        error_of(s) == error_of(t) ==> s == t,
{
    broadcast use vstd::seq_lib::group_seq_properties;
    let f = released_on_failure(s);
    let a = released_after(s);
    assert(f.to_set() =~= held_before(s)) by {
        assert forall|o: EngineObject| f.contains(o) <==> held_before(s).contains(o) by {
            if f.len() == 2 {
                assert(f[0] != f[1]);
            }
        }
    }
    assert(a.to_set() =~= (match s {
        StartupStage::CreateClient => set![EngineObject::Config],
        StartupStage::StartProbe => set![EngineObject::ProbeConfig],
        _ => Set::<EngineObject>::empty(),
    }));
    match next_of(s) {
        Some(n) => {
            assert(held_before(n) =~= held_before(s).union(created_by(s)).difference(a.to_set()));
        },
        None => {
            assert(held_before(s).union(created_by(s)).difference(a.to_set())
                =~= set![EngineObject::Client]);
        },
    }
}

} // verus!
