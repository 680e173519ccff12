//! The default skill set and skill lookup.

use vstd::prelude::*;
use crate::generator::DamagePacketGenerator;
use crate::strings::str_eq;

verus! {

/// The built-in default skill set: the plain attack every entity knows.
pub fn default_skills() -> (r: Vec<DamagePacketGenerator>)
    ensures
        r@.len() == 1,
        r@[0].id@ == "basic_attack"@,
{
    let mut v: Vec<DamagePacketGenerator> = Vec::new();
    v.push(DamagePacketGenerator::basic_attack());
    v
}

/// Look a skill up by identifier: the first match, or nothing — a miss
/// is an explicit absence, never a failure.
pub fn find_skill<'a>(skills: &'a Vec<DamagePacketGenerator>, id: &str) -> (r: Option<
    &'a DamagePacketGenerator,
>)
    ensures
        match r {
            None => forall|k: int|
                0 <= k < skills@.len() ==> (#[trigger] skills@[k]).id@ != id@,
            Some(s) => exists|ix: int|
                {
                    &&& 0 <= ix < skills@.len()
                    &&& skills@[ix].id@ == id@
                    &&& forall|k: int| 0 <= k < ix ==> (#[trigger] skills@[k]).id@ != id@
                    &&& *s == skills@[ix]
                },
        },
{
    let mut i: usize = 0;
    while i < skills.len()
        invariant
            i <= skills.len(),
            forall|k: int| 0 <= k < i ==> (#[trigger] skills@[k]).id@ != id@,
        decreases skills.len() - i,
    {
        if str_eq(skills[i].id.as_str(), id) {
            return Some(&skills[i]);
        }
        i = i + 1;
    }
    None
}

} // verus!
