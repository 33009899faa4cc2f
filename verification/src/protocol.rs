use vstd::prelude::*;
use crate::types::ForesterError;

verus! {

/// Per-deployment timing parameters of the epoch protocol, in chain slots.
#[derive(Clone, Copy, Debug, PartialEq, Eq)]
pub struct ProtocolConfig {
    /// Chain slot at which epoch zero starts registering.
    pub genesis_slot: u64,
    /// Length of one light slot.
    pub slot_length: u64,
    pub registration_phase_length: u64,
    pub active_phase_length: u64,
    pub report_work_phase_length: u64,
    pub cpi_context_size: u64,
}

/// A half-open span `[start, end)` of chain slots.
#[derive(Clone, Copy, Debug, PartialEq, Eq)]
pub struct Phase {
    pub start: u64,
    pub end: u64,
}

/// The four phases of one epoch.
#[derive(Clone, Copy, Debug, PartialEq, Eq)]
pub struct EpochPhases {
    pub registration: Phase,
    pub active: Phase,
    pub report_work: Phase,
    pub post: Phase,
}

/// `x`, capped at the largest slot number.
pub open spec fn saturate(x: int) -> u64 {
    if x > u64::MAX {
        u64::MAX
    } else if x < 0 {
        0
    } else {
        x as u64
    }
}

/// The phases of `epoch`: registration starts `epoch` active-phase lengths after
/// genesis, and each phase begins where the previous one ends. Slot numbers
/// that would pass the largest one stay at it.
pub open spec fn spec_epoch_phases(config: ProtocolConfig, epoch: u64) -> EpochPhases {
    let registration_start = saturate(config.genesis_slot + epoch * config.active_phase_length);
    let registration_end = saturate(registration_start + config.registration_phase_length);
    let active_end = saturate(registration_end + config.active_phase_length);
    let report_work_end = saturate(active_end + config.report_work_phase_length);
    EpochPhases {
        registration: Phase { start: registration_start, end: registration_end },
        active: Phase { start: registration_end, end: active_end },
        report_work: Phase { start: active_end, end: report_work_end },
        post: Phase { start: report_work_end, end: u64::MAX },
    }
}

impl Phase {
    /// `slot` lies in the span.
    pub open spec fn contains(self, slot: u64) -> bool {
        self.start <= slot < self.end
    }
}

impl ProtocolConfig {
    /// Phase lengths that allow epochs to be told apart: a non-empty active
    /// phase and a first active phase that starts at a representable slot.
    pub open spec fn epochs_defined(self) -> bool {
        &&& self.active_phase_length > 0
        &&& self.genesis_slot + self.registration_phase_length <= u64::MAX
    }

    /// Epochs can be told apart and light slots are not empty.
    pub open spec fn well_formed(self) -> bool {
        &&& self.epochs_defined()
        &&& self.slot_length > 0
    }

    /// The epoch whose registration has most recently opened at `slot`.
    pub open spec fn spec_current_epoch(self, slot: u64) -> int {
        if slot >= self.genesis_slot {
            (slot - self.genesis_slot) / (self.active_phase_length as int)
        } else {
            0
        }
    }

    /// The epoch whose active phase contains `slot`, if the first active phase
    /// has begun.
    pub open spec fn spec_current_active_epoch(self, slot: u64) -> Option<int> {
        if slot >= self.genesis_slot + self.registration_phase_length {
            Some(
                (slot - self.genesis_slot - self.registration_phase_length) / (
                self.active_phase_length as int),
            )
        } else {
            None
        }
    }

    /// `slot` lies in the active phase of `epoch`.
    pub open spec fn spec_in_active_phase(self, slot: u64, epoch: u64) -> bool {
        self.spec_current_active_epoch(slot) == Some(epoch as int)
    }

    /// Whether epochs can be told apart.
    pub fn are_epochs_defined(&self) -> (ok: bool)
        ensures
            ok == self.epochs_defined(),
    {
        self.active_phase_length > 0 && self.registration_phase_length <= u64::MAX
            - self.genesis_slot
    }

    /// Whether the parameters are well formed.
    pub fn is_well_formed(&self) -> (ok: bool)
        ensures
            ok == self.well_formed(),
    {
        self.active_phase_length > 0 && self.slot_length > 0 && self.registration_phase_length
            <= u64::MAX - self.genesis_slot
    }

    /// Calls `light_registry::protocol_config::state::ProtocolConfig::get_current_epoch`,
    /// which divides the slots elapsed since genesis (none before genesis) by the
    /// length of the active phase.
    #[verifier::external_body]
    fn registry_current_epoch(&self, slot: u64) -> (epoch: u64)
        requires
            self.active_phase_length != 0,
        ensures
            epoch == self.spec_current_epoch(slot),
    {
        light_registry::protocol_config::state::ProtocolConfig {
            genesis_slot: self.genesis_slot,
            slot_length: self.slot_length,
            registration_phase_length: self.registration_phase_length,
            active_phase_length: self.active_phase_length,
            report_work_phase_length: self.report_work_phase_length,
            cpi_context_size: self.cpi_context_size,
            ..Default::default()
        }.get_current_epoch(slot)
    }

    /// Calls `light_registry::protocol_config::state::ProtocolConfig::get_current_active_epoch`,
    /// which fails for a slot before the first active phase and otherwise divides the
    /// slots elapsed since that phase began by the length of the active phase.
    #[verifier::external_body]
    fn registry_current_active_epoch(&self, slot: u64) -> (epoch: Option<u64>)
        requires
            self.active_phase_length != 0,
            self.genesis_slot + self.registration_phase_length <= u64::MAX,
        ensures
            epoch.is_some() == self.spec_current_active_epoch(slot).is_some(),
            epoch.is_some() ==> epoch.unwrap() == self.spec_current_active_epoch(slot).unwrap(),
    {
        light_registry::protocol_config::state::ProtocolConfig {
            genesis_slot: self.genesis_slot,
            slot_length: self.slot_length,
            registration_phase_length: self.registration_phase_length,
            active_phase_length: self.active_phase_length,
            report_work_phase_length: self.report_work_phase_length,
            cpi_context_size: self.cpi_context_size,
            ..Default::default()
        }.get_current_active_epoch(slot).ok()
    }

    /// Calls `light_registry::protocol_config::state::ProtocolConfig::is_active_phase`,
    /// which succeeds exactly when the active epoch at `slot` exists and is `epoch`.
    #[verifier::external_body]
    fn registry_is_active_phase(&self, slot: u64, epoch: u64) -> (active: bool)
        requires
            self.active_phase_length != 0,
            self.genesis_slot + self.registration_phase_length <= u64::MAX,
        ensures
            active == self.spec_in_active_phase(slot, epoch),
    {
        light_registry::protocol_config::state::ProtocolConfig {
            genesis_slot: self.genesis_slot,
            slot_length: self.slot_length,
            registration_phase_length: self.registration_phase_length,
            active_phase_length: self.active_phase_length,
            report_work_phase_length: self.report_work_phase_length,
            cpi_context_size: self.cpi_context_size,
            ..Default::default()
        }.is_active_phase(slot, epoch).is_ok()
    }

    /// The epoch whose registration has most recently opened at `slot`.
    pub fn get_current_epoch(&self, slot: u64) -> (epoch: u64)
        requires
            self.epochs_defined(),
        ensures
            epoch == self.spec_current_epoch(slot),
    {
        self.registry_current_epoch(slot)
    }

    /// The epoch whose active phase contains `slot`; `NotInActivePhase` before
    /// the first active phase has begun.
    pub fn get_current_active_epoch(&self, slot: u64) -> (epoch: Result<u64, ForesterError>)
        requires
            self.epochs_defined(),
        ensures
            match epoch {
                Ok(e) => self.spec_current_active_epoch(slot) == Some(e as int),
                Err(error) => self.spec_current_active_epoch(slot).is_none() && error
                    == ForesterError::NotInActivePhase,
            },
    {
        match self.registry_current_active_epoch(slot) {
            Some(e) => Ok(e),
            None => Err(ForesterError::NotInActivePhase),
        }
    }

    /// Succeeds exactly when `slot` lies in the active phase of `epoch`.
    pub fn is_active_phase(&self, slot: u64, epoch: u64) -> (outcome: Result<(), ForesterError>)
        requires
            self.epochs_defined(),
        ensures
            outcome.is_ok() == self.spec_in_active_phase(slot, epoch),
            outcome.is_err() ==> outcome == Err::<(), ForesterError>(
                ForesterError::NotInActivePhase,
            ),
    {
        if self.registry_is_active_phase(slot, epoch) {
            Ok(())
        } else {
            Err(ForesterError::NotInActivePhase)
        }
    }
}

fn saturating_slot_add(a: u64, b: u64) -> (sum: u64)
    ensures
        sum == saturate(a + b),
{
    if b > u64::MAX - a {
        u64::MAX
    } else {
        a + b
    }
}

/// The four phases of `epoch` under `config`.
pub fn get_epoch_phases(config: &ProtocolConfig, epoch: u64) -> (phases: EpochPhases)
    ensures
        phases == spec_epoch_phases(*config, epoch),
{
    let wide: u128 = {
        assert(epoch * config.active_phase_length <= 0xffff_ffff_ffff_ffff
            * 0xffff_ffff_ffff_ffff) by (nonlinear_arith)
            requires
                0 <= epoch <= 0xffff_ffff_ffff_ffff,
                0 <= config.active_phase_length <= 0xffff_ffff_ffff_ffff,
        ;
        (epoch as u128) * (config.active_phase_length as u128)
    };
    let offset: u64 = if wide > u64::MAX as u128 {
        u64::MAX
    } else {
        wide as u64
    };
    let registration_start = saturating_slot_add(config.genesis_slot, offset);
    let registration_end = saturating_slot_add(
        registration_start,
        config.registration_phase_length,
    );
    let active_end = saturating_slot_add(registration_end, config.active_phase_length);
    let report_work_end = saturating_slot_add(active_end, config.report_work_phase_length);
    EpochPhases {
        registration: Phase { start: registration_start, end: registration_end },
        active: Phase { start: registration_end, end: active_end },
        report_work: Phase { start: active_end, end: report_work_end },
        post: Phase { start: report_work_end, end: u64::MAX },
    }
}

/// Whether `slot` lies in the active phase of `epoch`. Before the first
/// active phase of the protocol no slot lies in the active phase of any
/// epoch.
pub fn is_in_active_phase(config: &ProtocolConfig, slot: u64, epoch: u64) -> (active: bool)
    requires
        config.epochs_defined(),
    ensures
        active == config.spec_in_active_phase(slot, epoch),
{
    match config.get_current_active_epoch(slot) {
        Ok(current_epoch) => {
            if current_epoch != epoch {
                false
            } else {
                config.is_active_phase(slot, epoch).is_ok()
            }
        },
        Err(_) => false,
    }
}

/// Consecutive phases of an epoch meet: each starts where the previous one
/// ends, and none ends before it starts.
pub proof fn lemma_phases_are_consecutive(config: ProtocolConfig, epoch: u64)
    ensures
        ({
            let p = spec_epoch_phases(config, epoch);
            &&& p.registration.start <= p.registration.end
            &&& p.registration.end == p.active.start
            &&& p.active.start <= p.active.end
            &&& p.active.end == p.report_work.start
            &&& p.report_work.start <= p.report_work.end
            &&& p.report_work.end == p.post.start
            &&& p.post.start <= p.post.end
        }),
{
}

/// The phases of a later epoch start no earlier than those of an earlier
/// one, so that epochs reach their report phases in the order of their
/// numbers.
pub proof fn lemma_phases_are_ordered_by_epoch(config: ProtocolConfig, earlier: u64, later: u64)
    requires
        earlier <= later,
    ensures
        ({
            let a = spec_epoch_phases(config, earlier);
            let b = spec_epoch_phases(config, later);
            &&& a.registration.start <= b.registration.start
            &&& a.active.start <= b.active.start
            &&& a.report_work.start <= b.report_work.start
            &&& a.post.start <= b.post.start
        }),
{
    assert(earlier * config.active_phase_length <= later * config.active_phase_length)
        by (nonlinear_arith)
        requires
            0 <= earlier <= later,
            0 <= config.active_phase_length,
    ;
}

/// Where no slot number of the epoch is capped, a slot lies in the active
/// phase of `epoch` exactly when it lies in the span that the phases of that
/// epoch give for it. In particular no slot at or after the end of that span
/// is in the active phase.
pub proof fn lemma_active_phase_is_active_span(config: ProtocolConfig, slot: u64, epoch: u64)
    requires
        config.epochs_defined(),
        config.genesis_slot + config.registration_phase_length + (epoch + 1)
            * config.active_phase_length <= u64::MAX,
    ensures
        config.spec_in_active_phase(slot, epoch) == spec_epoch_phases(
            config,
            epoch,
        ).active.contains(slot),
{
    let a = config.active_phase_length as int;
    let base = config.genesis_slot + config.registration_phase_length;
    let e = epoch as int;
    assert((e + 1) * a == e * a + a) by (nonlinear_arith);
    assert(0 <= e * a) by (nonlinear_arith)
        requires
            0 <= e,
            0 < a,
    ;
    let p = spec_epoch_phases(config, epoch);
    assert(p.active.start == base + e * a);
    assert(p.active.end == base + e * a + a);
    if slot >= base {
        let d = slot - base;
        assert((d / a == e) <==> (e * a <= d < e * a + a)) by (nonlinear_arith)
            requires
                0 < a,
                0 <= d,
                0 <= e,
        ;
    }
}

} // verus!
