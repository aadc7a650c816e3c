//! Which pin and which peripheral belongs to whom.
//!
//! Every physical identifier is claimed by one role of one group. The table
//! is `claim_of`; `claimant` reads it the other way round. A `Token` stands
//! for the right to use one identifier: it cannot be copied, so a pin handed to
//! one group cannot be handed to another.

use vstd::prelude::*;
use crate::stage::Stage;

verus! {

/// A pin or a peripheral of the chip.
#[derive(Clone, Copy, Debug, PartialEq, Eq, Structural)]
pub enum ResourceId {
    Usart2,
    Pa2,
    Pa3,
}

/// A named group of resources.
#[derive(Clone, Copy, Debug, PartialEq, Eq, Structural)]
pub enum Group {
    Uart,
}

/// What a resource does within its group.
#[derive(Clone, Copy, Debug, PartialEq, Eq, Structural)]
pub enum Role {
    Peripheral,
    Tx,
    Rx,
}

/// One place in one group.
#[derive(Clone, Copy, Debug, PartialEq, Eq, Structural)]
pub struct Claim {
    pub group: Group,
    pub role: Role,
}

/// The place that an identifier is assigned to.
pub open spec fn claim_of(id: ResourceId) -> Claim {
    match id {
        ResourceId::Usart2 => Claim { group: Group::Uart, role: Role::Peripheral },
        ResourceId::Pa2 => Claim { group: Group::Uart, role: Role::Tx },
        ResourceId::Pa3 => Claim { group: Group::Uart, role: Role::Rx },
    }
}

/// The identifier that is assigned to a place.
pub open spec fn claimant(claim: Claim) -> ResourceId {
    match claim.role {
        Role::Peripheral => ResourceId::Usart2,
        Role::Tx => ResourceId::Pa2,
        Role::Rx => ResourceId::Pa3,
    }
}

/// The place that an identifier is assigned to.
#[verifier::when_used_as_spec(claim_of)]
pub fn claim(id: ResourceId) -> (c: Claim)
    ensures
        c == claim_of(id),
{
    match id {
        ResourceId::Usart2 => Claim { group: Group::Uart, role: Role::Peripheral },
        ResourceId::Pa2 => Claim { group: Group::Uart, role: Role::Tx },
        ResourceId::Pa3 => Claim { group: Group::Uart, role: Role::Rx },
    }
}

/// The identifier that is assigned to a place.
#[verifier::when_used_as_spec(claimant)]
pub fn holder(claim: Claim) -> (id: ResourceId)
    ensures
        id == claimant(claim),
{
    match claim.role {
        Role::Peripheral => ResourceId::Usart2,
        Role::Tx => ResourceId::Pa2,
        Role::Rx => ResourceId::Pa3,
    }
}

/// The assignment is one to one: every identifier has a place, every place has
/// an identifier, and no two identifiers share a place.
pub proof fn lemma_partition_is_bijection()
    ensures
        forall|id: ResourceId| claimant(#[trigger] claim_of(id)) == id,
        forall|c: Claim| claim_of(#[trigger] claimant(c)) == c,
        forall|a: ResourceId, b: ResourceId| #[trigger]
            claim_of(a) == #[trigger] claim_of(b) ==> a == b,
{
    assert forall|c: Claim| claim_of(#[trigger] claimant(c)) == c by {
        assert(c.group == Group::Uart);
    }
}

/// The right to use one pin or peripheral. There is no way to copy one.
#[derive(Debug, PartialEq, Eq)]
pub struct Token {
    id: ResourceId,
}

impl View for Token {
    type V = ResourceId;

    closed spec fn view(&self) -> ResourceId {
        self.id
    }
}

impl Token {
    pub(crate) fn mint(id: ResourceId) -> (token: Token)
        ensures
            token@ == id,
    {
        Token { id }
    }

    /// The pin or peripheral that this token stands for.
    pub fn id(&self) -> (id: ResourceId)
        ensures
            id == self@,
    {
        self.id
    }
}

/// What the UART owns: the peripheral and its two pins.
#[derive(Debug, PartialEq, Eq)]
pub struct UartResources {
    peri: Token,
    tx: Token,
    rx: Token,
}

impl UartResources {
    /// The identifier that fills a role in this group.
    pub closed spec fn occupant(&self, role: Role) -> ResourceId {
        match role {
            Role::Peripheral => self.peri@,
            Role::Tx => self.tx@,
            Role::Rx => self.rx@,
        }
    }

    /// Every role is filled by the identifier that the table assigns to it.
    pub open spec fn assigned(&self) -> bool {
        forall|role: Role| #[trigger]
            self.occupant(role) == claimant(Claim { group: Group::Uart, role })
    }

    pub(crate) fn assemble(peri: Token, tx: Token, rx: Token) -> (group: UartResources)
        ensures
            group.occupant(Role::Peripheral) == peri@,
            group.occupant(Role::Tx) == tx@,
            group.occupant(Role::Rx) == rx@,
    {
        UartResources { peri, tx, rx }
    }

    /// The UART peripheral.
    pub fn peri(&self) -> (token: &Token)
        ensures
            token@ == self.occupant(Role::Peripheral),
    {
        &self.peri
    }

    /// The pin that transmits.
    pub fn tx(&self) -> (token: &Token)
        ensures
            token@ == self.occupant(Role::Tx),
    {
        &self.tx
    }

    /// The pin that receives.
    pub fn rx(&self) -> (token: &Token)
        ensures
            token@ == self.occupant(Role::Rx),
    {
        &self.rx
    }
}

/// Every group, each with what it owns.
#[derive(Debug, PartialEq, Eq)]
pub struct ResourceGroups {
    pub uart: UartResources,
}

impl ResourceGroups {
    /// The identifier that fills a place.
    pub open spec fn occupant(&self, claim: Claim) -> ResourceId {
        match claim.group {
            Group::Uart => self.uart.occupant(claim.role),
        }
    }

    /// Every place is filled by the identifier that the table assigns to it.
    pub open spec fn assigned(&self) -> bool {
        &&& self.uart.assigned()
        &&& forall|claim: Claim| #[trigger] self.occupant(claim) == claimant(claim)
    }

    /// The stage that bring-up has reached once the resources are handed out.
    pub fn stage(&self) -> (stage: Stage)
        ensures
            stage == Stage::ResourcesPartitioned,
    {
        Stage::ResourcesPartitioned
    }
}

} // verus!
