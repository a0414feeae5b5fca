//! Cache walker: inspects a device node's ancestor chain for result
//! properties an external driver recorded earlier. The first node carrying
//! any of the three properties is a cache hit — its present values are
//! reported and the switch sequence is skipped; a chain carrying none is a
//! cache miss and the caller falls back to resolving and switching the
//! device. The surrounding binary collects the chain; the decision lives
//! here.

use vstd::prelude::*;

use crate::output::{lemma_lines_match_push, lines_match, OutputKey};

verus! {

/// The three result properties read off one node of the chain; each absent
/// when the node does not carry it.
pub struct NodeProperties {
    pub firmware_id: Option<String>,
    pub magic_bytes: Option<String>,
    pub pad_mode: Option<String>,
}

/// The mathematical model of one node's properties.
pub struct NodePropertiesModel {
    pub firmware_id: Option<Seq<char>>,
    pub magic_bytes: Option<Seq<char>>,
    pub pad_mode: Option<Seq<char>>,
}

impl View for NodeProperties {
    type V = NodePropertiesModel;

    open spec fn view(&self) -> NodePropertiesModel {
        NodePropertiesModel {
            firmware_id: match self.firmware_id {
                Some(s) => Some(s@),
                None => None,
            },
            magic_bytes: match self.magic_bytes {
                Some(s) => Some(s@),
                None => None,
            },
            pad_mode: match self.pad_mode {
                Some(s) => Some(s@),
                None => None,
            },
        }
    }
}

/// Whether a node carries any of the three result properties. The external
/// driver sets all of them on one node, so any one present is proof the
/// switch path was already taken.
pub open spec fn node_has_any(n: NodePropertiesModel) -> bool {
    n.firmware_id is Some || n.magic_bytes is Some || n.pad_mode is Some
}

pub open spec fn opt_line(k: OutputKey, v: Option<Seq<char>>) -> Seq<(OutputKey, Seq<char>)> {
    match v {
        Some(s) => seq![(k, s)],
        None => Seq::<(OutputKey, Seq<char>)>::empty(),
    }
}

/// The lines a cache hit on one node reports: its present properties, in the
/// fixed order firmware id, magic bytes, pad mode.
pub open spec fn node_lines(n: NodePropertiesModel) -> Seq<(OutputKey, Seq<char>)> {
    opt_line(OutputKey::FirmwareId, n.firmware_id) + opt_line(OutputKey::MagicBytes, n.magic_bytes)
        + opt_line(OutputKey::PadMode, n.pad_mode)
}

/// The mathematical model of a walk's outcome.
pub enum WalkOutcomeModel {
    Hit(Seq<(OutputKey, Seq<char>)>),
    Miss,
}

/// How a walk over a chain ends: a hit on the nearest node carrying any
/// result property, with that node's lines, or a miss when no node does.
pub open spec fn walk_spec(chain: Seq<NodePropertiesModel>) -> WalkOutcomeModel
    decreases chain.len(),
{
    if chain.len() == 0 {
        WalkOutcomeModel::Miss
    } else if node_has_any(chain[0]) {
        WalkOutcomeModel::Hit(node_lines(chain[0]))
    } else {
        walk_spec(chain.drop_first())
    }
}

/// The model of a chain of nodes.
pub open spec fn chain_view(chain: Seq<NodeProperties>) -> Seq<NodePropertiesModel> {
    chain.map_values(|n: NodeProperties| n@)
}

/// The outcome of a walk: the lines of a cache hit, or a miss telling the
/// caller to resolve the device and run the switch sequence.
pub enum WalkOutcome {
    CacheHit(Vec<(OutputKey, String)>),
    CacheMiss,
}

/// Walk a node chain, nearest node first, for previously recorded result
/// properties. A hit reports exactly the present properties of the nearest
/// carrying node; a miss means no node of the chain carries any.
pub fn walk_chain(chain: &Vec<NodeProperties>) -> (r: WalkOutcome)
    ensures
        match r {
            WalkOutcome::CacheHit(lines) => walk_spec(chain_view(chain@)) is Hit && lines_match(
                lines@,
                walk_spec(chain_view(chain@))->Hit_0,
            ),
            WalkOutcome::CacheMiss => walk_spec(chain_view(chain@)) is Miss,
        },
{
    let ghost full = chain_view(chain@);
    let mut i: usize = 0;
    proof {
        assert(full.skip(0) =~= full);
    }
    while i < chain.len()
        invariant
            i <= chain@.len(),
            full == chain_view(chain@),
            full.len() == chain@.len(),
            forall|j: int| 0 <= j < chain@.len() ==> #[trigger] full[j] == chain@[j]@,
            walk_spec(full) == walk_spec(full.skip(i as int)),
        decreases chain@.len() - i,
    {
        let node = &chain[i];
        let has_fw = node.firmware_id.is_some();
        let has_magic = node.magic_bytes.is_some();
        let has_pad = node.pad_mode.is_some();
        proof {
            assert(full.skip(i as int)[0] == full[i as int]);
        }
        if has_fw || has_magic || has_pad {
            let mut lines: Vec<(OutputKey, String)> = Vec::new();
            let ghost mut t = Seq::<(OutputKey, Seq<char>)>::empty();
            if let Some(v) = &node.firmware_id {
                lines.push((OutputKey::FirmwareId, v.clone()));
                proof {
                    lemma_lines_match_push(Seq::empty(), t, OutputKey::FirmwareId, *v);
                    t = t.push((OutputKey::FirmwareId, v@));
                }
            }
            if let Some(v) = &node.magic_bytes {
                let ghost pre = lines@;
                lines.push((OutputKey::MagicBytes, v.clone()));
                proof {
                    lemma_lines_match_push(pre, t, OutputKey::MagicBytes, *v);
                    t = t.push((OutputKey::MagicBytes, v@));
                }
            }
            if let Some(v) = &node.pad_mode {
                let ghost pre = lines@;
                lines.push((OutputKey::PadMode, v.clone()));
                proof {
                    lemma_lines_match_push(pre, t, OutputKey::PadMode, *v);
                    t = t.push((OutputKey::PadMode, v@));
                }
            }
            proof {
                assert(node_has_any(full[i as int]));
                assert(walk_spec(full.skip(i as int)) == WalkOutcomeModel::Hit(
                    node_lines(full[i as int]),
                ));
                assert(t =~= node_lines(full[i as int]));
            }
            return WalkOutcome::CacheHit(lines);
        }
        proof {
            assert(!node_has_any(full[i as int]));
            assert(full.skip(i as int).drop_first() =~= full.skip(i as int + 1));
        }
        i = i + 1;
    }
    proof {
        assert(full.skip(i as int) =~= Seq::<NodePropertiesModel>::empty());
    }
    WalkOutcome::CacheMiss
}

/// A chain whose first two nodes carry no result property and whose third
/// carries all three is a cache hit on that third node, with exactly its
/// three values — the walk never falls back to the switch sequence.
pub proof fn lemma_second_ancestor_hit(
    chain: Seq<NodePropertiesModel>,
    fw: Seq<char>,
    magic: Seq<char>,
    pad: Seq<char>,
)
    requires
        chain.len() >= 3,
        !node_has_any(chain[0]),
        !node_has_any(chain[1]),
        chain[2] == (NodePropertiesModel {
            firmware_id: Some(fw),
            magic_bytes: Some(magic),
            pad_mode: Some(pad),
        }),
    ensures
        walk_spec(chain) is Hit,
        walk_spec(chain)->Hit_0 =~= seq![
            (OutputKey::FirmwareId, fw),
            (OutputKey::MagicBytes, magic),
            (OutputKey::PadMode, pad),
        ],
{
    assert(chain.drop_first()[0] == chain[1]);
    assert(chain.drop_first().drop_first()[0] == chain[2]);
    assert(walk_spec(chain) == walk_spec(chain.drop_first()));
    assert(walk_spec(chain.drop_first()) == walk_spec(chain.drop_first().drop_first()));
    assert(node_has_any(chain[2]));
}

} // verus!
