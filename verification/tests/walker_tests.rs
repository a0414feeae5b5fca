use huion_switcher::output::OutputKey;
use huion_switcher::walker::{walk_chain, NodeProperties, WalkOutcome};

fn empty_node() -> NodeProperties {
    NodeProperties { firmware_id: None, magic_bytes: None, pad_mode: None }
}

fn full_node(fw: &str, magic: &str, pad: &str) -> NodeProperties {
    NodeProperties {
        firmware_id: Some(fw.to_string()),
        magic_bytes: Some(magic.to_string()),
        pad_mode: Some(pad.to_string()),
    }
}

#[test]
fn second_ancestor_hit_reports_its_three_values() {
    let chain = vec![empty_node(), empty_node(), full_node("FW", "1203aa", "P")];
    match walk_chain(&chain) {
        WalkOutcome::CacheHit(lines) => {
            assert_eq!(
                lines,
                vec![
                    (OutputKey::FirmwareId, "FW".to_string()),
                    (OutputKey::MagicBytes, "1203aa".to_string()),
                    (OutputKey::PadMode, "P".to_string()),
                ]
            );
        },
        WalkOutcome::CacheMiss => panic!("expected a cache hit"),
    }
}

#[test]
fn empty_chain_is_a_miss() {
    assert!(matches!(walk_chain(&vec![]), WalkOutcome::CacheMiss));
}

#[test]
fn chain_without_properties_is_a_miss() {
    let chain = vec![empty_node(), empty_node(), empty_node()];
    assert!(matches!(walk_chain(&chain), WalkOutcome::CacheMiss));
}

#[test]
fn nearest_carrying_node_wins_even_with_one_property() {
    let near = NodeProperties {
        firmware_id: None,
        magic_bytes: Some("beef".to_string()),
        pad_mode: None,
    };
    let chain = vec![empty_node(), near, full_node("FW", "dead", "P")];
    match walk_chain(&chain) {
        WalkOutcome::CacheHit(lines) => {
            assert_eq!(lines, vec![(OutputKey::MagicBytes, "beef".to_string())]);
        },
        WalkOutcome::CacheMiss => panic!("expected a cache hit"),
    }
}

#[test]
fn hit_on_the_start_node_itself() {
    let chain = vec![full_node("FW", "aa", "P"), empty_node()];
    match walk_chain(&chain) {
        WalkOutcome::CacheHit(lines) => assert_eq!(lines.len(), 3),
        WalkOutcome::CacheMiss => panic!("expected a cache hit"),
    }
}
