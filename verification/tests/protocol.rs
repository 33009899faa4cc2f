use forester::protocol::{
    get_epoch_phases, is_in_active_phase, EpochPhases, Phase, ProtocolConfig,
};
use forester::slot_tracker::{estimated_current_slot, slots_to_wait};
use forester::types::ForesterError;

fn config() -> ProtocolConfig {
    ProtocolConfig {
        genesis_slot: 0,
        slot_length: 10,
        registration_phase_length: 100,
        active_phase_length: 1000,
        report_work_phase_length: 100,
        cpi_context_size: 20 * 1024 + 8,
    }
}

#[test]
fn phases_of_epoch_zero() {
    let phases = get_epoch_phases(&config(), 0);
    assert_eq!(
        phases,
        EpochPhases {
            registration: Phase { start: 0, end: 100 },
            active: Phase { start: 100, end: 1100 },
            report_work: Phase { start: 1100, end: 1200 },
            post: Phase { start: 1200, end: u64::MAX },
        }
    );
}

#[test]
fn phases_of_later_epochs_overlap_the_previous_active_phase() {
    let one = get_epoch_phases(&config(), 1);
    assert_eq!(one.registration, Phase { start: 1000, end: 1100 });
    assert_eq!(one.active, Phase { start: 1100, end: 2100 });
    assert_eq!(one.report_work, Phase { start: 2100, end: 2200 });
    let two = get_epoch_phases(&config(), 2);
    assert_eq!(two.registration, Phase { start: 2000, end: 2100 });
    assert_eq!(two.active, Phase { start: 2100, end: 3100 });
    assert_eq!(two.post, Phase { start: 3200, end: u64::MAX });
}

#[test]
fn phases_with_genesis_offset() {
    let mut c = config();
    c.genesis_slot = 7;
    let phases = get_epoch_phases(&c, 3);
    assert_eq!(phases.registration, Phase { start: 3007, end: 3107 });
    assert_eq!(phases.active, Phase { start: 3107, end: 4107 });
}

#[test]
fn phases_stay_at_the_largest_slot() {
    let phases = get_epoch_phases(&config(), u64::MAX);
    assert_eq!(phases.registration, Phase { start: u64::MAX, end: u64::MAX });
    assert_eq!(phases.active, Phase { start: u64::MAX, end: u64::MAX });
    let mut c = config();
    c.genesis_slot = u64::MAX - 150;
    c.active_phase_length = 100;
    let near = get_epoch_phases(&c, 0);
    assert_eq!(near.registration, Phase { start: u64::MAX - 150, end: u64::MAX - 50 });
    assert_eq!(near.active, Phase { start: u64::MAX - 50, end: u64::MAX });
    assert_eq!(near.report_work, Phase { start: u64::MAX, end: u64::MAX });
}

#[test]
fn well_formed_configs() {
    assert!(config().is_well_formed());
    let mut c = config();
    c.active_phase_length = 0;
    assert!(!c.is_well_formed());
    let mut c = config();
    c.slot_length = 0;
    assert!(!c.is_well_formed());
    let mut c = config();
    c.genesis_slot = u64::MAX;
    c.registration_phase_length = 1;
    assert!(!c.is_well_formed());
    c.registration_phase_length = 0;
    assert!(c.is_well_formed());
}

#[test]
fn epochs_need_no_light_slot_length() {
    let mut c = config();
    c.slot_length = 0;
    assert!(c.are_epochs_defined());
    assert!(!c.is_well_formed());
    assert_eq!(c.get_current_epoch(1500), 1);
    assert!(is_in_active_phase(&c, 1100, 1));
    c.active_phase_length = 0;
    assert!(!c.are_epochs_defined());
    let mut late = config();
    late.genesis_slot = u64::MAX;
    assert!(!late.are_epochs_defined());
}

#[test]
fn current_epoch_is_counted_from_genesis() {
    let c = config();
    assert_eq!(c.get_current_epoch(0), 0);
    assert_eq!(c.get_current_epoch(999), 0);
    assert_eq!(c.get_current_epoch(1000), 1);
    assert_eq!(c.get_current_epoch(1500), 1);
    assert_eq!(c.get_current_epoch(25_000), 25);
    let mut late = config();
    late.genesis_slot = 500;
    assert_eq!(late.get_current_epoch(100), 0);
    assert_eq!(late.get_current_epoch(1499), 0);
    assert_eq!(late.get_current_epoch(1500), 1);
}

#[test]
fn current_active_epoch_starts_after_first_registration() {
    let c = config();
    assert_eq!(c.get_current_active_epoch(99), Err(ForesterError::NotInActivePhase));
    assert_eq!(c.get_current_active_epoch(100), Ok(0));
    assert_eq!(c.get_current_active_epoch(1099), Ok(0));
    assert_eq!(c.get_current_active_epoch(1100), Ok(1));
    assert_eq!(c.get_current_active_epoch(2100), Ok(2));
}

#[test]
fn is_active_phase_names_one_epoch() {
    let c = config();
    assert_eq!(c.is_active_phase(1100, 1), Ok(()));
    assert_eq!(c.is_active_phase(1100, 0), Err(ForesterError::NotInActivePhase));
    assert_eq!(c.is_active_phase(50, 0), Err(ForesterError::NotInActivePhase));
    assert_eq!(c.is_active_phase(2099, 1), Ok(()));
    assert_eq!(c.is_active_phase(2100, 1), Err(ForesterError::NotInActivePhase));
}

#[test]
fn in_active_phase_agrees_with_the_active_span() {
    let c = config();
    for epoch in 0..4u64 {
        let phases = get_epoch_phases(&c, epoch);
        assert!(is_in_active_phase(&c, phases.active.start, epoch));
        assert!(is_in_active_phase(&c, phases.active.end - 1, epoch));
        assert!(!is_in_active_phase(&c, phases.active.end, epoch));
        if phases.active.start > 100 {
            assert!(!is_in_active_phase(&c, phases.active.start - 1, epoch));
        }
    }
    assert!(!is_in_active_phase(&c, 99, 0));
    assert!(!is_in_active_phase(&c, 0, 0));
}

#[test]
fn registry_agrees_on_epochs() {
    let c = config();
    let outside = light_registry::protocol_config::state::ProtocolConfig::default();
    assert_eq!(outside.active_phase_length, c.active_phase_length);
    for slot in [0u64, 1, 99, 100, 999, 1000, 1099, 1100, 5432, 1_000_000] {
        assert_eq!(c.get_current_epoch(slot), outside.get_current_epoch(slot));
        assert_eq!(
            c.get_current_active_epoch(slot).ok(),
            outside.get_current_active_epoch(slot).ok()
        );
    }
}

#[test]
fn slot_estimate_adds_full_slot_durations() {
    assert_eq!(estimated_current_slot(100, 0, 400), 100);
    assert_eq!(estimated_current_slot(100, 399, 400), 100);
    assert_eq!(estimated_current_slot(100, 400, 400), 101);
    assert_eq!(estimated_current_slot(100, 4_001, 400), 110);
    assert_eq!(estimated_current_slot(u64::MAX - 1, 10_000, 1), u64::MAX);
    assert_eq!(estimated_current_slot(0, u64::MAX, 1), u64::MAX);
    assert_eq!(slots_to_wait(2000, 1010), 990);
    assert_eq!(slots_to_wait(2000, 2000), 0);
    assert_eq!(slots_to_wait(2000, 2500), 0);
}
