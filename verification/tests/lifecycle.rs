use caravela::behavior::{first_phase, next_phase, Phase};

#[test]
fn a_full_run() {
    let mut phase = first_phase();
    assert_eq!(phase, Phase::Init);
    phase = next_phase(phase, true);
    assert_eq!(phase, Phase::Init);
    phase = next_phase(phase, false);
    assert_eq!(phase, Phase::Setup);
    phase = next_phase(phase, true);
    assert_eq!(phase, Phase::Supervision);
    phase = next_phase(phase, false);
    assert_eq!(phase, Phase::Action);
    phase = next_phase(phase, true);
    assert_eq!(phase, Phase::Recovery);
    phase = next_phase(phase, false);
    assert_eq!(phase, Phase::Completion);
    phase = next_phase(phase, false);
    assert_eq!(phase, Phase::Supervision);
    phase = next_phase(phase, false);
    phase = next_phase(phase, false);
    assert_eq!(phase, Phase::Completion);
    phase = next_phase(phase, true);
    assert_eq!(phase, Phase::Takedown);
    phase = next_phase(phase, false);
    assert_eq!(phase, Phase::Finished);
    assert_eq!(next_phase(phase, true), Phase::Finished);
}

#[test]
fn failed_setup_and_termination_end_the_run() {
    assert_eq!(next_phase(Phase::Setup, false), Phase::Finished);
    assert_eq!(next_phase(Phase::Supervision, true), Phase::Finished);
}
