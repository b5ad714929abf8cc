use rand::{Rng, SeedableRng};
use pow_chain::consensus::{weight_range, Consensus, Mechanism, ROSTER_SIZE};

#[test]
fn selects_greatest_weight_first_on_tie() {
    let c = Consensus::with_weights(Mechanism::ProofOfWork, [5, 9, 9]);
    assert_eq!(c.selected_index(), 1);
    assert_eq!(c.select_validator(), "Miner2");
    let c = Consensus::with_weights(Mechanism::ProofOfStake, [100, 999, 1000]);
    assert_eq!(c.select_validator(), "Staker3");
    let c = Consensus::with_weights(Mechanism::DelegatedProofOfStake, [4, 4, 4]);
    assert_eq!(c.select_validator(), "Delegate1");
}

#[test]
fn explanation_lists_the_roster() {
    let c = Consensus::with_weights(Mechanism::ProofOfWork, [5, 90, 0]);
    assert_eq!(
        c.explain_selection(),
        "PoW: Selected validator with highest computational power.\nValidators: [PowValidator { id: \"Miner1\", power: 5 }, PowValidator { id: \"Miner2\", power: 90 }, PowValidator { id: \"Miner3\", power: 0 }]"
    );
    let c = Consensus::with_weights(Mechanism::ProofOfStake, [123, 456, 789]);
    assert_eq!(
        c.explain_selection(),
        "PoS: Selected validator with highest stake.\nValidators: [PosValidator { id: \"Staker1\", stake: 123 }, PosValidator { id: \"Staker2\", stake: 456 }, PosValidator { id: \"Staker3\", stake: 789 }]"
    );
    let c = Consensus::with_weights(Mechanism::DelegatedProofOfStake, [1, 2, 3]);
    assert_eq!(
        c.explain_selection(),
        "DPoS: Selected delegate with most votes.\nValidators: [DposValidator { id: \"Delegate1\", votes: 1 }, DposValidator { id: \"Delegate2\", votes: 2 }, DposValidator { id: \"Delegate3\", votes: 3 }]"
    );
}

#[test]
fn random_rosters_stay_in_range() {
    for m in [Mechanism::ProofOfWork, Mechanism::ProofOfStake, Mechanism::DelegatedProofOfStake] {
        let (low, high) = weight_range(m);
        for _ in 0..50 {
            let c = Consensus::new(m);
            assert_eq!(c.mechanism, m);
            assert_eq!(c.validators.len(), ROSTER_SIZE);
            for v in &c.validators {
                assert!(low <= v.weight && v.weight < high);
            }
            let max = c.validators.iter().map(|v| v.weight).max().unwrap();
            let chosen = c.select_validator();
            assert_eq!(chosen, c.select_validator());
            let first = c.validators.iter().find(|v| v.weight == max).unwrap();
            assert_eq!(chosen, first.id);
        }
    }
    assert_eq!(weight_range(Mechanism::ProofOfWork), (1, 100));
    assert_eq!(weight_range(Mechanism::ProofOfStake), (100, 1000));
    assert_eq!(weight_range(Mechanism::DelegatedProofOfStake), (1, 10));
}

#[test]
fn roster_ids_follow_the_mechanism() {
    let c = Consensus::new(Mechanism::DelegatedProofOfStake);
    let ids: Vec<&str> = c.validators.iter().map(|v| v.id.as_str()).collect();
    assert_eq!(ids, vec!["Delegate1", "Delegate2", "Delegate3"]);
    let c = Consensus::new(Mechanism::ProofOfWork);
    assert_eq!(c.validators[2].id, "Miner3");
}

#[test]
fn seeded_weights_give_the_same_selection() {
    let roster = |seed: u64| {
        let mut rng = rand::rngs::StdRng::seed_from_u64(seed);
        let (low, high) = weight_range(Mechanism::ProofOfStake);
        let weights = [rng.gen_range(low..high), rng.gen_range(low..high), rng.gen_range(low..high)];
        Consensus::with_weights(Mechanism::ProofOfStake, weights)
    };
    for seed in 0..20u64 {
        let a = roster(seed);
        let b = roster(seed);
        assert_eq!(a.select_validator(), b.select_validator());
        assert_eq!(a.explain_selection(), b.explain_selection());
    }
}
