use mc_app::phase::{Phase, Step};

#[test]
fn the_path_is_in_the_order_it_is_walked() {
    let ranks: Vec<usize> = Phase::ALL.iter().map(|phase| phase.rank()).collect();

    assert_eq!(ranks, (0..Phase::ALL.len()).collect::<Vec<_>>());
}

#[test]
fn mc_packs_steps_keep_their_order_once_translated() {
    let ranks: Vec<usize> = Step::ALL
        .iter()
        .map(|step| Phase::from_step(*step).rank())
        .collect();

    let first = ranks[0];
    assert_eq!(ranks, (first..first + Step::ALL.len()).collect::<Vec<_>>());
}

#[test]
fn installation_is_framed_by_what_mc_pack_ignores() {
    assert!(Phase::SignIn.rank() < Phase::from_step(Step::Pack).rank());
    assert!(Phase::License.rank() < Phase::from_step(Step::Pack).rank());
    assert!(Phase::Ready.rank() > Phase::from_step(Step::Lock).rank());
    assert!(Phase::Launch.rank() > Phase::Ready.rank());
}

#[test]
fn each_phase_has_a_non_empty_label() {
    for phase in Phase::ALL {
        assert!(!phase.label().is_empty(), "{phase:?}");
    }
}

#[test]
fn each_phase_has_a_distinct_label() {
    let labels: std::collections::BTreeSet<&str> = Phase::ALL.iter().map(|p| p.label()).collect();
    assert_eq!(labels.len(), Phase::ALL.len());
    assert_eq!(Phase::SignIn.label(), "Microsoft account");
}
