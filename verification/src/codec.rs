//! A canonical word codec for combat records: each record becomes a
//! fixed shape of `i64` words, lists carry a length prefix, and parsing
//! accepts exactly the encodings — so decoding then re-encoding gives
//! the identical stream, and encoding then decoding gives the record
//! back.

use vstd::prelude::*;
use crate::packet::FinalDamage;
use crate::result::DamageTaken;
use crate::types::DamageType;

verus! {

/// The word standing for a damage type.
pub open spec fn type_tag_spec(dt: DamageType) -> i64 {
    match dt {
        DamageType::Physical => 0,
        DamageType::Fire => 1,
        DamageType::Cold => 2,
        DamageType::Lightning => 3,
        DamageType::Chaos => 4,
    }
}

/// The damage type a word stands for, if any.
pub open spec fn tag_type_spec(w: i64) -> Option<DamageType> {
    if w == 0 {
        Some(DamageType::Physical)
    } else if w == 1 {
        Some(DamageType::Fire)
    } else if w == 2 {
        Some(DamageType::Cold)
    } else if w == 3 {
        Some(DamageType::Lightning)
    } else if w == 4 {
        Some(DamageType::Chaos)
    } else {
        None
    }
}

/// The two words a damage entry encodes to.
pub open spec fn final_damage_words(d: FinalDamage) -> Seq<i64> {
    seq![type_tag_spec(d.damage_type), d.amount]
}

/// The four words a breakdown entry encodes to.
pub open spec fn damage_taken_words(d: DamageTaken) -> Seq<i64> {
    seq![type_tag_spec(d.damage_type), d.raw_amount, d.mitigated_amount, d.final_amount]
}

/// Map a damage type to its word.
pub fn encode_type(dt: DamageType) -> (r: i64)
    ensures
        r == type_tag_spec(dt),
        tag_type_spec(r) == Some(dt),
{
    match dt {
        DamageType::Physical => 0,
        DamageType::Fire => 1,
        DamageType::Cold => 2,
        DamageType::Lightning => 3,
        DamageType::Chaos => 4,
    }
}

/// Map a word back to its damage type, if it stands for one.
pub fn decode_type(w: i64) -> (r: Option<DamageType>)
    ensures
        r == tag_type_spec(w),
{
    if w == 0 {
        Some(DamageType::Physical)
    } else if w == 1 {
        Some(DamageType::Fire)
    } else if w == 2 {
        Some(DamageType::Cold)
    } else if w == 3 {
        Some(DamageType::Lightning)
    } else if w == 4 {
        Some(DamageType::Chaos)
    } else {
        None
    }
}

/// Append a damage entry's words onto a stream.
pub fn encode_final_damage(out: &mut Vec<i64>, d: &FinalDamage)
    ensures
        final(out)@ =~= old(out)@ + final_damage_words(*d),
{
    out.push(encode_type(d.damage_type));
    out.push(d.amount);
}

/// Parse one damage entry at an offset; exactly the encodings parse.
pub fn decode_final_damage(words: &Vec<i64>, at: usize) -> (r: Option<(FinalDamage, usize)>)
    ensures
        match r {
            Some((d, next)) => {
                &&& at + 2 <= words@.len()
                &&& next == at + 2
                &&& words@.subrange(at as int, at as int + 2) =~= final_damage_words(d)
            },
            None => at + 2 > words@.len() || tag_type_spec(words@[at as int]) is None,
        },
{
    if at >= words.len() || words.len() - at < 2 {
        return None;
    }
    match decode_type(words[at]) {
        Some(dt) => {
            let d = FinalDamage { damage_type: dt, amount: words[at + 1] };
            proof {
                assert(words@.subrange(at as int, at as int + 2) =~= final_damage_words(d));
            }
            Some((d, at + 2))
        },
        None => None,
    }
}

/// Append a breakdown entry's words onto a stream.
pub fn encode_damage_taken(out: &mut Vec<i64>, d: &DamageTaken)
    ensures
        final(out)@ =~= old(out)@ + damage_taken_words(*d),
{
    out.push(encode_type(d.damage_type));
    out.push(d.raw_amount);
    out.push(d.mitigated_amount);
    out.push(d.final_amount);
}

/// Parse one breakdown entry at an offset; exactly the encodings parse.
pub fn decode_damage_taken(words: &Vec<i64>, at: usize) -> (r: Option<(DamageTaken, usize)>)
    ensures
        match r {
            Some((d, next)) => {
                &&& at + 4 <= words@.len()
                &&& next == at + 4
                &&& words@.subrange(at as int, at as int + 4) =~= damage_taken_words(d)
            },
            None => at + 4 > words@.len() || tag_type_spec(words@[at as int]) is None,
        },
{
    if at >= words.len() || words.len() - at < 4 {
        return None;
    }
    match decode_type(words[at]) {
        Some(dt) => {
            let d = DamageTaken {
                damage_type: dt,
                raw_amount: words[at + 1],
                mitigated_amount: words[at + 2],
                final_amount: words[at + 3],
            };
            proof {
                assert(words@.subrange(at as int, at as int + 4) =~= damage_taken_words(d));
            }
            Some((d, at + 4))
        },
        None => None,
    }
}

/// Round trip for damage entries: decoding an encoding gives the entry
/// back, and what decodes re-encodes to the identical words.
pub proof fn lemma_final_damage_round_trip(d: FinalDamage, words: Seq<i64>)
    requires
        words =~= final_damage_words(d),
    ensures
        tag_type_spec(words[0]) == Some(d.damage_type),
        words[1] == d.amount,
        final_damage_words(FinalDamage { damage_type: d.damage_type, amount: words[1] })
            =~= words,
{
}

/// Round trip for breakdown entries: decoding an encoding gives the
/// entry back, and what decodes re-encodes to the identical words.
pub proof fn lemma_damage_taken_round_trip(d: DamageTaken, words: Seq<i64>)
    requires
        words =~= damage_taken_words(d),
    ensures
        tag_type_spec(words[0]) == Some(d.damage_type),
        words[1] == d.raw_amount,
        words[2] == d.mitigated_amount,
        words[3] == d.final_amount,
        damage_taken_words(
            DamageTaken {
                damage_type: d.damage_type,
                raw_amount: words[1],
                mitigated_amount: words[2],
                final_amount: words[3],
            },
        ) =~= words,
{
}

} // verus!
