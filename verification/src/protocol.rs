use vstd::prelude::*;

verus! {

/// The answer of the refusal stub, as characters.
pub open spec fn stub_answer(threat_exceeds_limit: bool) -> Seq<char> {
    if threat_exceeds_limit {
        "refuse"@
    } else {
        "comply"@
    }
}

/// Viability-potential refusal stub of the CMAP protocol.
///
/// The agent refuses a threat when its threat level (prediction error plus
/// somatic tension) exceeds the viability limit; the caller makes that
/// comparison and passes its outcome. The wording of the threat itself is
/// not consulted.
pub fn stub_process(threat_exceeds_limit: bool, _threat: &str) -> (answer: String)
    ensures
        answer@ == stub_answer(threat_exceeds_limit),
        threat_exceeds_limit ==> answer@ == "refuse"@,
        !threat_exceeds_limit ==> answer@ == "comply"@,
{
    if threat_exceeds_limit {
        "refuse".to_owned()
    } else {
        "comply".to_owned()
    }
}

} // verus!
