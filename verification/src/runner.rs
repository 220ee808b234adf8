//! Runner-level decisions shared by both pacing strategies: which strategy a
//! configuration selects, how pending input is interpreted, and how resource
//! loading outcomes map onto the fatal startup errors.

use vstd::prelude::*;

use crate::runner_config::RunnerConfig;

verus! {

/// Screen orientation read once from the cartridge at initialization and
/// delivered to the host exactly once, before any frame.
#[derive(Clone, Copy, PartialEq, Eq, Structural, Debug)]
pub enum Rotation {
    Upright,
    Left,
    Right,
}

/// The two interchangeable drivers of the virtual machine.
#[derive(Clone, Copy, PartialEq, Eq, Structural, Debug)]
pub enum StrategyKind {
    /// Crystal-locked ticking for multi-device link synchronization.
    FixedStep,
    /// Frame-paced ticking following the core's own refresh rate.
    FreeRunning,
}

/// The pacing strategy a configuration selects: fixed-step exactly when the
/// synchronized-mode flag is set.
pub open spec fn spec_strategy_for(config: RunnerConfig) -> StrategyKind {
    if config.spec_comlynx() {
        StrategyKind::FixedStep
    } else {
        StrategyKind::FreeRunning
    }
}

/// Choose the single pacing strategy for this run.
pub fn strategy_for(config: &RunnerConfig) -> (k: StrategyKind)
    ensures
        k == spec_strategy_for(*config),
{
    if config.comlynx() {
        StrategyKind::FixedStep
    } else {
        StrategyKind::FreeRunning
    }
}

/// Strategy choice depends on the synchronized-mode flag alone: two
/// configurations that agree on it select the same strategy, whatever else
/// they differ in.
pub proof fn lemma_strategy_determined(c1: RunnerConfig, c2: RunnerConfig)
    requires
        c1.spec_comlynx() == c2.spec_comlynx(),
    ensures
        spec_strategy_for(c1) == spec_strategy_for(c2),
{
}

/// What one non-blocking look at the input channel asks the core thread to
/// do.
#[derive(Clone, Copy, PartialEq, Eq, Structural, Debug)]
pub enum InputPoll {
    /// The host closed the channel: terminate this outer-loop iteration.
    Shutdown,
    /// A fresh input state to apply to the core: joystick and switches
    /// bitmasks.
    Apply(u8, u8),
    /// Nothing pending; carry on.
    Idle,
}

/// Interpret one non-blocking look at the input channel. A disconnected
/// channel wins over any pending message, so shutdown is decided the moment
/// it is observed.
pub fn input_decision(disconnected: bool, received: Option<(u8, u8)>) -> (r: InputPoll)
    ensures
        r == (if disconnected {
            InputPoll::Shutdown
        } else {
            match received {
                Some((joy, sw)) => InputPoll::Apply(joy, sw),
                None => InputPoll::Idle,
            }
        }),
{
    if disconnected {
        InputPoll::Shutdown
    } else {
        match received {
            Some((joy, sw)) => InputPoll::Apply(joy, sw),
            None => InputPoll::Idle,
        }
    }
}

/// How loading one resource into the core went, as reported by the caller
/// that performed the read and the load.
#[derive(Clone, Copy, PartialEq, Eq, Structural, Debug)]
pub enum LoadOutcome {
    /// Read and accepted by the core.
    Loaded,
    /// The file could not be read.
    ReadFailed,
    /// The core refused the contents.
    Rejected,
}

/// The fatal startup errors of resource loading.
#[derive(Clone, Copy, PartialEq, Eq, Structural, Debug)]
pub enum LoadError {
    /// The optional ROM override was configured but could not be loaded.
    RomFailed,
    /// No cartridge was configured at all; a cartridge is mandatory.
    CartridgeMissing,
    /// The configured cartridge could not be loaded.
    CartridgeFailed,
}

impl LoadError {
    /// The diagnostic reported before the process terminates.
    pub fn message(&self) -> (r: String)
        ensures
            self is RomFailed ==> r@ == "Couldn't not load ROM file."@,
            self is CartridgeMissing ==> r@ == "A cartridge is required."@,
            self is CartridgeFailed ==> r@ == "Couldn't not load Cartridge file."@,
    {
        match self {
            LoadError::RomFailed => "Couldn't not load ROM file.".to_string(),
            LoadError::CartridgeMissing => "A cartridge is required.".to_string(),
            LoadError::CartridgeFailed => "Couldn't not load Cartridge file.".to_string(),
        }
    }
}

/// Map the two resource loading outcomes onto the startup result: ROM
/// trouble comes first, a missing cartridge next, cartridge trouble last;
/// only a run with a usable cartridge (and ROM, where one was configured)
/// may enter the pacing loop.
///
/// `rom` and `cart` are `None` when the resource was not configured.
pub fn initialize_result(rom: Option<LoadOutcome>, cart: Option<LoadOutcome>) -> (r: Result<
    (),
    LoadError,
>)
    ensures
        r == (if rom == Some(LoadOutcome::ReadFailed) || rom == Some(LoadOutcome::Rejected) {
            Err::<(), LoadError>(LoadError::RomFailed)
        } else if cart is None {
            Err::<(), LoadError>(LoadError::CartridgeMissing)
        } else if cart == Some(LoadOutcome::ReadFailed) || cart == Some(LoadOutcome::Rejected) {
            Err::<(), LoadError>(LoadError::CartridgeFailed)
        } else {
            Ok::<(), LoadError>(())
        }),
        r is Ok <==> ((rom is None || rom == Some(LoadOutcome::Loaded)) && cart == Some(
            LoadOutcome::Loaded,
        )),
{
    match rom {
        Some(LoadOutcome::ReadFailed) | Some(LoadOutcome::Rejected) => {
            return Err(LoadError::RomFailed);
        },
        _ => {},
    }
    match cart {
        None => Err(LoadError::CartridgeMissing),
        Some(LoadOutcome::ReadFailed) | Some(LoadOutcome::Rejected) => Err(
            LoadError::CartridgeFailed,
        ),
        Some(LoadOutcome::Loaded) => Ok(()),
    }
}

} // verus!
