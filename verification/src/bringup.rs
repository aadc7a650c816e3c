//! The steps of bring-up. Each consumes what the step before it returned, so
//! they can only be taken in order and each only once.

use vstd::prelude::*;
use crate::clock::{ClockConfig, ClockTree, Ratings};
use crate::fault::{ConfigurationError, Rejection};
use crate::resources::{Claim, Group, ResourceGroups, ResourceId, Role, Token, UartResources};
use crate::resources::claimant;
use crate::stage::Stage;
use crate::uart::UartConfig;

verus! {

/// The chip with its clocks running: the root from which every pin and
/// peripheral is handed out.
#[derive(Debug, PartialEq, Eq)]
pub struct SystemHandle {
    clocks: ClockTree,
    usart2: Token,
    pa2: Token,
    pa3: Token,
}

impl SystemHandle {
    #[verifier::type_invariant]
    spec fn holds_each_once(self) -> bool {
        &&& self.usart2@ == ResourceId::Usart2
        &&& self.pa2@ == ResourceId::Pa2
        &&& self.pa3@ == ResourceId::Pa3
    }

    /// The clocks that the chip runs at.
    pub closed spec fn spec_clocks(&self) -> ClockTree {
        self.clocks
    }

    /// The clocks that the chip runs at.
    #[verifier::when_used_as_spec(spec_clocks)]
    pub fn clocks(&self) -> (tree: ClockTree)
        ensures
            tree == self.spec_clocks(),
    {
        self.clocks
    }

    /// The stage that bring-up has reached once the clocks run.
    pub fn stage(&self) -> (stage: Stage)
        ensures
            stage == Stage::ClockConfigured,
    {
        Stage::ClockConfigured
    }
}

/// Checks the clock tree and, where it can be applied, returns the root
/// handle. A configuration that the chip cannot encode or is not rated for is
/// refused with the first reason for which it cannot be applied.
pub fn init_system(config: &ClockConfig, ratings: &Ratings) -> (r: Result<
    SystemHandle,
    ConfigurationError,
>)
    ensures
        match r {
            Ok(system) => config.fault(*ratings) is None && system.clocks() == config.tree(),
            Err(e) => config.fault(*ratings) == Some(e),
        },
{
    match config.check(ratings) {
        Ok(clocks) => Ok(
            SystemHandle {
                clocks,
                usart2: Token::mint(ResourceId::Usart2),
                pa2: Token::mint(ResourceId::Pa2),
                pa3: Token::mint(ResourceId::Pa3),
            },
        ),
        Err(e) => Err(e),
    }
}

/// Splits the root handle into its groups. Every pin and peripheral goes to
/// the place that the table assigns to it, and the root handle is used up.
pub fn partition_resources(system: SystemHandle) -> (groups: ResourceGroups)
    ensures
        groups.assigned(),
{
    proof {
        use_type_invariant(&system);
    }
    let uart = UartResources::assemble(system.usart2, system.pa2, system.pa3);
    let groups = ResourceGroups { uart };
    assert forall|role: Role| #[trigger]
        groups.uart.occupant(role) == claimant(Claim { group: Group::Uart, role }) by {
        match role {
            Role::Peripheral => {},
            Role::Tx => {},
            Role::Rx => {},
        }
    }
    assert forall|claim: Claim| #[trigger] groups.occupant(claim) == claimant(claim) by {
        assert(claim.group == Group::Uart);
        assert(claim == Claim { group: Group::Uart, role: claim.role });
    }
    groups
}

/// A configured transmitter: the UART, its pins, and the wire format that it
/// was set to.
#[derive(Debug, PartialEq, Eq)]
pub struct UartHandle {
    config: UartConfig,
    resources: UartResources,
}

impl UartHandle {
    /// The wire format that the UART was set to.
    pub closed spec fn spec_config(&self) -> UartConfig {
        self.config
    }

    /// What the UART owns.
    pub closed spec fn spec_resources(&self) -> &UartResources {
        &self.resources
    }

    /// The wire format that the UART was set to.
    #[verifier::when_used_as_spec(spec_config)]
    pub fn config(&self) -> (config: UartConfig)
        ensures
            config == self.spec_config(),
    {
        self.config
    }

    /// What the UART owns.
    #[verifier::when_used_as_spec(spec_resources)]
    pub fn resources(&self) -> (resources: &UartResources)
        ensures
            resources == self.spec_resources(),
    {
        &self.resources
    }

    /// The stage that bring-up has reached once the UART is configured.
    pub fn stage(&self) -> (stage: Stage)
        ensures
            stage == Stage::UartReady,
    {
        Stage::UartReady
    }
}

/// Binds the UART's resources to a wire format, given what the hardware said
/// to that format. Where the hardware took it, the handle reports the format
/// and owns the resources; where it refused, the refusal is the error.
pub fn init_uart(resources: UartResources, config: UartConfig, outcome: Result<(), Rejection>) -> (r:
    Result<UartHandle, ConfigurationError>)
    ensures
        match outcome {
            Ok(_) => r matches Ok(handle) && handle.config() == config && *handle.resources()
                == resources,
            Err(rejection) => r matches Err(e) && e == ConfigurationError::UartRejected(rejection),
        },
{
    match outcome {
        Ok(_) => Ok(UartHandle { config, resources }),
        Err(rejection) => Err(ConfigurationError::UartRejected(rejection)),
    }
}

} // verus!
