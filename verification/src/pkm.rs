//! Traits of a generated creature and how they are read off the raw values
//! that the generator draws: nature, gender, ability, shininess and the
//! individual values.

use vstd::prelude::*;

verus! {

/// The 25 natures, in the order of their numbers `0..25`.
#[derive(Clone, Copy, Debug, PartialEq, Eq, Structural)]
pub enum Nature {
    Hardy,
    Lonely,
    Brave,
    Adamant,
    Naughty,
    Bold,
    Docile,
    Relaxed,
    Impish,
    Lax,
    Timid,
    Hasty,
    Serious,
    Jolly,
    Naive,
    Modest,
    Mild,
    Quiet,
    Bashful,
    Rash,
    Calm,
    Gentle,
    Sassy,
    Careful,
    Quirky,
}

impl Nature {
    /// The number of the nature, `0..25`.
    pub open spec fn index(self) -> int {
        match self {
            Nature::Hardy => 0,
            Nature::Lonely => 1,
            Nature::Brave => 2,
            Nature::Adamant => 3,
            Nature::Naughty => 4,
            Nature::Bold => 5,
            Nature::Docile => 6,
            Nature::Relaxed => 7,
            Nature::Impish => 8,
            Nature::Lax => 9,
            Nature::Timid => 10,
            Nature::Hasty => 11,
            Nature::Serious => 12,
            Nature::Jolly => 13,
            Nature::Naive => 14,
            Nature::Modest => 15,
            Nature::Mild => 16,
            Nature::Quiet => 17,
            Nature::Bashful => 18,
            Nature::Rash => 19,
            Nature::Calm => 20,
            Nature::Gentle => 21,
            Nature::Sassy => 22,
            Nature::Careful => 23,
            Nature::Quirky => 24,
        }
    }

    /// The nature with the number `i`; numbers outside `0..24` give the last one.
    pub open spec fn of_index(i: int) -> Nature {
        if i == 0 {
            Nature::Hardy
        } else if i == 1 {
            Nature::Lonely
        } else if i == 2 {
            Nature::Brave
        } else if i == 3 {
            Nature::Adamant
        } else if i == 4 {
            Nature::Naughty
        } else if i == 5 {
            Nature::Bold
        } else if i == 6 {
            Nature::Docile
        } else if i == 7 {
            Nature::Relaxed
        } else if i == 8 {
            Nature::Impish
        } else if i == 9 {
            Nature::Lax
        } else if i == 10 {
            Nature::Timid
        } else if i == 11 {
            Nature::Hasty
        } else if i == 12 {
            Nature::Serious
        } else if i == 13 {
            Nature::Jolly
        } else if i == 14 {
            Nature::Naive
        } else if i == 15 {
            Nature::Modest
        } else if i == 16 {
            Nature::Mild
        } else if i == 17 {
            Nature::Quiet
        } else if i == 18 {
            Nature::Bashful
        } else if i == 19 {
            Nature::Rash
        } else if i == 20 {
            Nature::Calm
        } else if i == 21 {
            Nature::Gentle
        } else if i == 22 {
            Nature::Sassy
        } else if i == 23 {
            Nature::Careful
        } else {
            Nature::Quirky
        }
    }

    /// The nature of a drawn value: the value modulo 25 is its number.
    pub fn from_u8(value: u8) -> (r: Nature)
        ensures
            r == Nature::of_index(value as int % 25),
            r.index() == value as int % 25,
    {
        match value % 25 {
            0 => Nature::Hardy,
            1 => Nature::Lonely,
            2 => Nature::Brave,
            3 => Nature::Adamant,
            4 => Nature::Naughty,
            5 => Nature::Bold,
            6 => Nature::Docile,
            7 => Nature::Relaxed,
            8 => Nature::Impish,
            9 => Nature::Lax,
            10 => Nature::Timid,
            11 => Nature::Hasty,
            12 => Nature::Serious,
            13 => Nature::Jolly,
            14 => Nature::Naive,
            15 => Nature::Modest,
            16 => Nature::Mild,
            17 => Nature::Quiet,
            18 => Nature::Bashful,
            19 => Nature::Rash,
            20 => Nature::Calm,
            21 => Nature::Gentle,
            22 => Nature::Sassy,
            23 => Nature::Careful,
            _ => Nature::Quirky,
        }
    }

    /// The number of the nature.
    pub fn to_u8(self) -> (r: u8)
        ensures
            r == self.index(),
            r < 25,
    {
        match self {
            Nature::Hardy => 0,
            Nature::Lonely => 1,
            Nature::Brave => 2,
            Nature::Adamant => 3,
            Nature::Naughty => 4,
            Nature::Bold => 5,
            Nature::Docile => 6,
            Nature::Relaxed => 7,
            Nature::Impish => 8,
            Nature::Lax => 9,
            Nature::Timid => 10,
            Nature::Hasty => 11,
            Nature::Serious => 12,
            Nature::Jolly => 13,
            Nature::Naive => 14,
            Nature::Modest => 15,
            Nature::Mild => 16,
            Nature::Quiet => 17,
            Nature::Bashful => 18,
            Nature::Rash => 19,
            Nature::Calm => 20,
            Nature::Gentle => 21,
            Nature::Sassy => 22,
            Nature::Careful => 23,
            Nature::Quirky => 24,
        }
    }

    /// The nature that a personality value encodes.
    pub fn from_pid(pid: u32) -> (r: Nature)
        ensures
            r == nature_of_pid(pid),
            r.index() == pid as int % 25,
    {
        Nature::from_u8((pid % 25) as u8)
    }
}

/// The nature that a personality value encodes: its number is the value
/// modulo 25.
pub open spec fn nature_of_pid(pid: u32) -> Nature {
    Nature::of_index(pid as int % 25)
}

/// A nature is the nature of its number, and a number in `0..25` is the number
/// of its nature.
pub proof fn lemma_nature_index_roundtrip(n: Nature, i: int)
    ensures
        0 <= n.index() < 25,
        Nature::of_index(n.index()) == n,
        0 <= i < 25 ==> Nature::of_index(i).index() == i,
{
}

/// Gender of a creature.
#[derive(Clone, Copy, Debug, PartialEq, Eq, Structural)]
pub enum Gender {
    Male,
    Female,
    Genderless,
}

impl Gender {
    /// The gender a charmed encounter is drawn towards: male for a female
    /// lead, female for any other.
    pub open spec fn opposite(self) -> Gender {
        if self == Gender::Female {
            Gender::Male
        } else {
            Gender::Female
        }
    }

    /// The gender a charmed encounter is drawn towards.
    pub fn attracted(self) -> (r: Gender)
        ensures
            r == self.opposite(),
    {
        match self {
            Gender::Female => Gender::Male,
            _ => Gender::Female,
        }
    }
}

/// How the genders of a species are spread, males to females.
#[derive(Clone, Copy, Debug, PartialEq, Eq, Structural)]
pub enum GenderRatio {
    Genderless,
    MaleOnly,
    FemaleOnly,
    OneToOne,
    OneToThree,
    ThreeToOne,
    SevenToOne,
}

impl GenderRatio {
    /// The number that the low byte of a personality value is compared with:
    /// a creature is female if the byte lies below it.
    pub open spec fn threshold(self) -> int {
        match self {
            GenderRatio::Genderless => 255,
            GenderRatio::MaleOnly => 0,
            GenderRatio::FemaleOnly => 254,
            GenderRatio::OneToOne => 127,
            GenderRatio::OneToThree => 191,
            GenderRatio::ThreeToOne => 63,
            GenderRatio::SevenToOne => 31,
        }
    }

    /// Whether a species of this ratio has both males and females.
    pub open spec fn spec_has_multiple_genders(self) -> bool {
        match self {
            GenderRatio::Genderless => false,
            GenderRatio::MaleOnly => false,
            GenderRatio::FemaleOnly => false,
            _ => true,
        }
    }

    /// The gender that goes with the low byte `rate` of a personality value.
    pub open spec fn spec_gender(self, rate: int) -> Gender {
        match self {
            GenderRatio::Genderless => Gender::Genderless,
            GenderRatio::FemaleOnly => Gender::Female,
            _ => if rate < self.threshold() {
                Gender::Female
            } else {
                Gender::Male
            },
        }
    }

    /// The gender that a personality value encodes for this ratio.
    pub open spec fn spec_gender_from_pid(self, pid: u32) -> Gender {
        self.spec_gender(pid as int % 256)
    }

    /// The comparison value of the ratio.
    pub fn threshold_value(self) -> (r: u8)
        ensures
            r == self.threshold(),
    {
        match self {
            GenderRatio::Genderless => 255,
            GenderRatio::MaleOnly => 0,
            GenderRatio::FemaleOnly => 254,
            GenderRatio::OneToOne => 127,
            GenderRatio::OneToThree => 191,
            GenderRatio::ThreeToOne => 63,
            GenderRatio::SevenToOne => 31,
        }
    }

    /// Whether a species of this ratio has both males and females.
    #[verifier::when_used_as_spec(spec_has_multiple_genders)]
    pub fn has_multiple_genders(self) -> (r: bool)
        ensures
            r == self.spec_has_multiple_genders(),
    {
        match self {
            GenderRatio::Genderless => false,
            GenderRatio::MaleOnly => false,
            GenderRatio::FemaleOnly => false,
            _ => true,
        }
    }

    /// The gender that goes with the low byte `rate` of a personality value.
    pub fn gender(self, rate: u8) -> (r: Gender)
        ensures
            r == self.spec_gender(rate as int),
    {
        match self {
            GenderRatio::Genderless => Gender::Genderless,
            GenderRatio::FemaleOnly => Gender::Female,
            _ => if rate < self.threshold_value() {
                Gender::Female
            } else {
                Gender::Male
            },
        }
    }

    /// The gender that a personality value encodes for this ratio.
    pub fn gender_from_pid(self, pid: u32) -> (r: Gender)
        ensures
            r == self.spec_gender_from_pid(pid),
    {
        self.gender((pid % 256) as u8)
    }
}

/// Which of the two ability slots of its species a creature has.
#[derive(Clone, Copy, Debug, PartialEq, Eq, Structural)]
pub enum AbilityType {
    First,
    Second,
}

/// The ability slot that a personality value encodes: its lowest bit.
pub open spec fn ability_of_pid(pid: u32) -> AbilityType {
    if pid as int % 2 == 0 {
        AbilityType::First
    } else {
        AbilityType::Second
    }
}

impl AbilityType {
    /// The ability slot that a personality value encodes.
    pub fn from_gen3_pid(pid: u32) -> (r: AbilityType)
        ensures
            r == ability_of_pid(pid),
    {
        if pid % 2 == 0 {
            AbilityType::First
        } else {
            AbilityType::Second
        }
    }
}

/// The value whose size decides shininess: both halves of the personality
/// value and both trainer numbers, combined bit by bit.
pub open spec fn shiny_value(pid: u32, tid: u16, sid: u16) -> u32 {
    (pid / 0x1_0000) ^ (pid % 0x1_0000) ^ (tid as u32) ^ (sid as u32)
}

/// A creature is shiny if its shiny value lies below this.
pub const SHINY_THRESHOLD: u32 = 8;

/// Whether the creature with this personality value is shiny for the trainer
/// with these numbers.
pub open spec fn is_shiny(pid: u32, tid: u16, sid: u16) -> bool {
    shiny_value(pid, tid, sid) < SHINY_THRESHOLD
}

/// Whether the creature with this personality value is shiny for the trainer
/// with these numbers.
pub fn gen3_shiny(pid: u32, tid: u16, sid: u16) -> (r: bool)
    ensures
        r == is_shiny(pid, tid, sid),
{
    ((pid / 0x1_0000) ^ (pid % 0x1_0000) ^ (tid as u32) ^ (sid as u32)) < SHINY_THRESHOLD
}

/// The five bits of `word` that start at bit `5 * field`.
pub open spec fn iv_field(word: u16, field: int) -> int {
    if field == 0 {
        word as int % 32
    } else if field == 1 {
        (word as int / 32) % 32
    } else {
        (word as int / 1024) % 32
    }
}

/// The six individual values of a creature, each in `0..=31`.
#[derive(Clone, Copy, Debug, PartialEq, Eq, Structural)]
pub struct Ivs {
    pub hp: u8,
    pub atk: u8,
    pub def: u8,
    pub spa: u8,
    pub spd: u8,
    pub spe: u8,
}

impl Ivs {
    /// Every value lies in `0..=31`.
    pub open spec fn wf(self) -> bool {
        &&& self.hp <= 31
        &&& self.atk <= 31
        &&& self.def <= 31
        &&& self.spa <= 31
        &&& self.spd <= 31
        &&& self.spe <= 31
    }

    /// The values packed in two drawn words: the first holds HP, Attack and
    /// Defense in its bits 0-4, 5-9 and 10-14, the second holds Speed, Special
    /// Attack and Special Defense in the same places.
    pub open spec fn decode(iv1: u16, iv2: u16) -> Ivs {
        Ivs {
            hp: iv_field(iv1, 0) as u8,
            atk: iv_field(iv1, 1) as u8,
            def: iv_field(iv1, 2) as u8,
            spe: iv_field(iv2, 0) as u8,
            spa: iv_field(iv2, 1) as u8,
            spd: iv_field(iv2, 2) as u8,
        }
    }

    /// Every value lies between the value of `min` and that of `max`, both
    /// included.
    pub open spec fn within(self, min: Ivs, max: Ivs) -> bool {
        &&& min.hp <= self.hp <= max.hp
        &&& min.atk <= self.atk <= max.atk
        &&& min.def <= self.def <= max.def
        &&& min.spa <= self.spa <= max.spa
        &&& min.spd <= self.spd <= max.spd
        &&& min.spe <= self.spe <= max.spe
    }

    /// Unpacks two drawn words, the word with HP, Attack and Defense first.
    pub fn new_g3(iv1: u16, iv2: u16) -> (r: Ivs)
        ensures
            r == Ivs::decode(iv1, iv2),
            r.wf(),
    {
        Ivs {
            hp: (iv1 % 32) as u8,
            atk: ((iv1 / 32) % 32) as u8,
            def: ((iv1 / 1024) % 32) as u8,
            spe: (iv2 % 32) as u8,
            spa: ((iv2 / 32) % 32) as u8,
            spd: ((iv2 / 1024) % 32) as u8,
        }
    }

    /// Unpacks two drawn words that come in the other order: the word with
    /// Speed, Special Attack and Special Defense first.
    pub fn new_g3_reversed(iv1: u16, iv2: u16) -> (r: Ivs)
        ensures
            r == Ivs::decode(iv2, iv1),
            r.wf(),
    {
        Ivs::new_g3(iv2, iv1)
    }

    /// The lowest values: all zero.
    pub fn create_min() -> (r: Ivs)
        ensures
            r == (Ivs { hp: 0, atk: 0, def: 0, spa: 0, spd: 0, spe: 0 }),
            r.wf(),
    {
        Ivs { hp: 0, atk: 0, def: 0, spa: 0, spd: 0, spe: 0 }
    }

    /// The highest values: all 31.
    pub fn create_max() -> (r: Ivs)
        ensures
            r == (Ivs { hp: 31, atk: 31, def: 31, spa: 31, spd: 31, spe: 31 }),
            r.wf(),
    {
        Ivs { hp: 31, atk: 31, def: 31, spa: 31, spd: 31, spe: 31 }
    }

    /// Whether every value lies within the bounds, both included.
    pub fn filter(&self, min: &Ivs, max: &Ivs) -> (r: bool)
        ensures
            r == self.within(*min, *max),
    {
        min.hp <= self.hp && self.hp <= max.hp && min.atk <= self.atk && self.atk <= max.atk
            && min.def <= self.def && self.def <= max.def && min.spa <= self.spa && self.spa
            <= max.spa && min.spd <= self.spd && self.spd <= max.spd && min.spe <= self.spe
            && self.spe <= max.spe
    }
}

/// Whatever the words, the values unpacked from them lie in `0..=31`.
pub proof fn lemma_decode_wf(iv1: u16, iv2: u16)
    ensures
        Ivs::decode(iv1, iv2).wf(),
{
}

/// What a caller asks of a creature before it counts as a result.
#[derive(Clone, Copy, Debug, PartialEq, Eq, Structural)]
pub struct PkmFilter {
    /// Only shiny creatures pass.
    pub shiny: bool,
    /// Only this nature passes.
    pub nature: Option<Nature>,
    /// Only this gender passes.
    pub gender: Option<Gender>,
    /// Only this ability slot passes.
    pub ability: Option<AbilityType>,
    /// The least individual values that pass.
    pub min_ivs: Ivs,
    /// The greatest individual values that pass.
    pub max_ivs: Ivs,
}

impl PkmFilter {
    /// The filter that lets every creature pass.
    pub fn any() -> (r: PkmFilter)
        ensures
            r == (PkmFilter {
                shiny: false,
                nature: None,
                gender: None,
                ability: None,
                min_ivs: Ivs { hp: 0, atk: 0, def: 0, spa: 0, spd: 0, spe: 0 },
                max_ivs: Ivs { hp: 31, atk: 31, def: 31, spa: 31, spd: 31, spe: 31 },
            }),
    {
        PkmFilter {
            shiny: false,
            nature: None,
            gender: None,
            ability: None,
            min_ivs: Ivs::create_min(),
            max_ivs: Ivs::create_max(),
        }
    }
}

} // verus!
