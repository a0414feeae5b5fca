//! The result keys the tool may print, and the correspondence between a
//! produced line list and its mathematical model.

use vstd::prelude::*;

verus! {

/// The three result keys a switch run or a cache hit may report.
#[derive(Clone, Copy, Debug, PartialEq, Eq, Structural)]
pub enum OutputKey {
    FirmwareId,
    MagicBytes,
    PadMode,
}

/// The property name each key is printed under.
pub open spec fn key_name_spec(k: OutputKey) -> Seq<char> {
    match k {
        OutputKey::FirmwareId => "HUION_FIRMWARE_ID"@,
        OutputKey::MagicBytes => "HUION_MAGIC_BYTES"@,
        OutputKey::PadMode => "HUION_PAD_MODE"@,
    }
}

/// The property name each key is printed under.
pub fn key_name(k: OutputKey) -> (r: &'static str)
    ensures
        r@ == key_name_spec(k),
{
    match k {
        OutputKey::FirmwareId => "HUION_FIRMWARE_ID",
        OutputKey::MagicBytes => "HUION_MAGIC_BYTES",
        OutputKey::PadMode => "HUION_PAD_MODE",
    }
}

/// Whether a produced line list carries exactly the keys and values of its
/// model, in the same order.
pub open spec fn lines_match(r: Seq<(OutputKey, String)>, t: Seq<(OutputKey, Seq<char>)>) -> bool {
    &&& r.len() == t.len()
    &&& forall|i: int|
        0 <= i < r.len() ==> (#[trigger] r[i]).0 == t[i].0 && r[i].1@ == t[i].1
}

/// Appending the same line to a matching pair keeps them matching.
pub proof fn lemma_lines_match_push(
    r: Seq<(OutputKey, String)>,
    t: Seq<(OutputKey, Seq<char>)>,
    k: OutputKey,
    v: String,
)
    requires
        lines_match(r, t),
    ensures
        lines_match(r.push((k, v)), t.push((k, v@))),
{
    let r2 = r.push((k, v));
    let t2 = t.push((k, v@));
    assert forall|i: int| 0 <= i < r2.len() implies (#[trigger] r2[i]).0 == t2[i].0 && r2[i].1@
        == t2[i].1 by {
        if i < r.len() {
            assert(r2[i] == r[i]);
            assert(t2[i] == t[i]);
        } else {
            assert(r2[i] == (k, v));
            assert(t2[i] == (k, v@));
        }
    }
}

} // verus!
