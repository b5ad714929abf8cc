use pow_chain::block::Block;
use pow_chain::chain::Chain;

#[test]
fn empty_chain_is_valid() {
    let c = Chain::new();
    assert_eq!(c.len(), 0);
    assert!(c.validate());
    assert_eq!(c.first_invalid(), None);
}

#[test]
fn mined_chain_is_valid() {
    let mut c = Chain::new();
    for (i, data) in ["Genesis Block", "Second Block", "Third Block", "Fourth Block"].iter().enumerate() {
        assert!(c.add_block(data.to_string(), 2));
        assert_eq!(c.len(), i + 1);
        assert_eq!(c.blocks[i].index, i as u64);
        assert!(c.blocks[i].hash.starts_with("00"));
    }
    assert_eq!(c.blocks[0].previous_hash, "0");
    for i in 1..c.len() {
        assert_eq!(c.blocks[i].previous_hash, c.blocks[i - 1].hash);
    }
    assert!(c.validate());
}

#[test]
fn tampering_breaks_the_next_link() {
    for i in 0..3usize {
        let mut c = Chain::new();
        for data in ["a", "b", "c", "d"] {
            c.add_block(data.to_string(), 1);
        }
        let old_hash = c.blocks[i].hash.clone();
        c.mutate_payload(i, "forged".to_string());
        assert_eq!(c.blocks[i].data, "forged");
        assert_ne!(c.blocks[i].hash, old_hash);
        assert_eq!(c.first_invalid(), Some(i + 1));
        assert!(!c.validate());
    }
}

#[test]
fn tampering_the_last_block_goes_unnoticed() {
    let mut c = Chain::new();
    for data in ["a", "b", "c"] {
        c.add_block(data.to_string(), 1);
    }
    c.mutate_payload(2, "forged".to_string());
    assert!(c.validate());
}

#[test]
fn wrong_previous_hash_is_reported() {
    let mut c = Chain::new();
    c.add_block("a".to_string(), 1);
    c.append(Block::with_timestamp(1, 0, "b".to_string(), "not the hash".to_string()));
    assert_eq!(c.first_invalid(), Some(1));
}

#[test]
fn stale_hash_is_reported() {
    let mut c = Chain::new();
    c.add_block("a".to_string(), 0);
    c.blocks[0].nonce += 1;
    assert_eq!(c.first_invalid(), Some(0));
}
