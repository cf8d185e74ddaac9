//! What an encounter roll is configured with: the slots of an area, the
//! lead creature's influence and the five ways the game's draws can fall.

use vstd::prelude::*;
use crate::pkm::{Gender, Nature};

verus! {

/// The twelve encounter slots of an area.
#[derive(Clone, Copy, Debug, PartialEq, Eq, Structural)]
pub enum EncounterSlot {
    Slot0,
    Slot1,
    Slot2,
    Slot3,
    Slot4,
    Slot5,
    Slot6,
    Slot7,
    Slot8,
    Slot9,
    Slot10,
    Slot11,
}

/// The upper bounds, on a scale of 100, of the twelve slots of an ordinary
/// land area: two slots of 20, four of 10, two of 5, two of 4 and two of 1.
pub open spec fn land_bounds() -> Seq<u8> {
    seq![20u8, 40u8, 50u8, 60u8, 70u8, 80u8, 85u8, 90u8, 94u8, 98u8, 99u8, 100u8]
}

/// The position of the first bound at or after `from` that lies above
/// `rand`; the number of bounds if there is none.
pub open spec fn first_bound_above(bounds: Seq<u8>, rand: int, from: int) -> int
    decreases bounds.len() - from,
{
    if from < 0 || from >= bounds.len() {
        bounds.len() as int
    } else if rand < bounds[from] {
        from
    } else {
        first_bound_above(bounds, rand, from + 1)
    }
}

impl EncounterSlot {
    /// The number of the slot, `0..12`.
    pub open spec fn index(self) -> int {
        match self {
            EncounterSlot::Slot0 => 0,
            EncounterSlot::Slot1 => 1,
            EncounterSlot::Slot2 => 2,
            EncounterSlot::Slot3 => 3,
            EncounterSlot::Slot4 => 4,
            EncounterSlot::Slot5 => 5,
            EncounterSlot::Slot6 => 6,
            EncounterSlot::Slot7 => 7,
            EncounterSlot::Slot8 => 8,
            EncounterSlot::Slot9 => 9,
            EncounterSlot::Slot10 => 10,
            EncounterSlot::Slot11 => 11,
        }
    }

    /// The slot with the number `i`; a number past the last slot gives the
    /// last slot.
    pub open spec fn of_index(i: int) -> EncounterSlot {
        if i <= 0 {
            EncounterSlot::Slot0
        } else if i <= 1 {
            EncounterSlot::Slot1
        } else if i <= 2 {
            EncounterSlot::Slot2
        } else if i <= 3 {
            EncounterSlot::Slot3
        } else if i <= 4 {
            EncounterSlot::Slot4
        } else if i <= 5 {
            EncounterSlot::Slot5
        } else if i <= 6 {
            EncounterSlot::Slot6
        } else if i <= 7 {
            EncounterSlot::Slot7
        } else if i <= 8 {
            EncounterSlot::Slot8
        } else if i <= 9 {
            EncounterSlot::Slot9
        } else if i <= 10 {
            EncounterSlot::Slot10
        } else {
            EncounterSlot::Slot11
        }
    }

    /// The slot that a selector in `0..100` falls into in an ordinary land
    /// area: two slots of 20 in 100, four of 10, two of 5, two of 4 and two
    /// of 1.
    pub open spec fn of_rand(rand: int) -> EncounterSlot {
        if rand < 20 {
            EncounterSlot::Slot0
        } else if rand < 40 {
            EncounterSlot::Slot1
        } else if rand < 50 {
            EncounterSlot::Slot2
        } else if rand < 60 {
            EncounterSlot::Slot3
        } else if rand < 70 {
            EncounterSlot::Slot4
        } else if rand < 80 {
            EncounterSlot::Slot5
        } else if rand < 85 {
            EncounterSlot::Slot6
        } else if rand < 90 {
            EncounterSlot::Slot7
        } else if rand < 94 {
            EncounterSlot::Slot8
        } else if rand < 98 {
            EncounterSlot::Slot9
        } else if rand < 99 {
            EncounterSlot::Slot10
        } else {
            EncounterSlot::Slot11
        }
    }

    /// Whether the slot is one of the listed ones; with no list every slot is.
    pub open spec fn allowed(filter: Option<Seq<EncounterSlot>>, slot: EncounterSlot) -> bool {
        match filter {
            None => true,
            Some(list) => list.contains(slot),
        }
    }

    /// The number of the slot.
    pub fn to_u8(self) -> (r: u8)
        ensures
            r == self.index(),
            r < 12,
    {
        match self {
            EncounterSlot::Slot0 => 0,
            EncounterSlot::Slot1 => 1,
            EncounterSlot::Slot2 => 2,
            EncounterSlot::Slot3 => 3,
            EncounterSlot::Slot4 => 4,
            EncounterSlot::Slot5 => 5,
            EncounterSlot::Slot6 => 6,
            EncounterSlot::Slot7 => 7,
            EncounterSlot::Slot8 => 8,
            EncounterSlot::Slot9 => 9,
            EncounterSlot::Slot10 => 10,
            EncounterSlot::Slot11 => 11,
        }
    }

    /// The slot with the number `i`, the last slot for larger numbers.
    pub fn from_index(i: usize) -> (r: EncounterSlot)
        ensures
            r == EncounterSlot::of_index(i as int),
    {
        match i {
            0 => EncounterSlot::Slot0,
            1 => EncounterSlot::Slot1,
            2 => EncounterSlot::Slot2,
            3 => EncounterSlot::Slot3,
            4 => EncounterSlot::Slot4,
            5 => EncounterSlot::Slot5,
            6 => EncounterSlot::Slot6,
            7 => EncounterSlot::Slot7,
            8 => EncounterSlot::Slot8,
            9 => EncounterSlot::Slot9,
            10 => EncounterSlot::Slot10,
            _ => EncounterSlot::Slot11,
        }
    }

    /// The slot that a selector in `0..100` falls into in an ordinary land
    /// area.
    pub fn from_rand(rand: u8) -> (r: EncounterSlot)
        ensures
            r == EncounterSlot::of_rand(rand as int),
    {
        if rand < 20 {
            EncounterSlot::Slot0
        } else if rand < 40 {
            EncounterSlot::Slot1
        } else if rand < 50 {
            EncounterSlot::Slot2
        } else if rand < 60 {
            EncounterSlot::Slot3
        } else if rand < 70 {
            EncounterSlot::Slot4
        } else if rand < 80 {
            EncounterSlot::Slot5
        } else if rand < 85 {
            EncounterSlot::Slot6
        } else if rand < 90 {
            EncounterSlot::Slot7
        } else if rand < 94 {
            EncounterSlot::Slot8
        } else if rand < 98 {
            EncounterSlot::Slot9
        } else if rand < 99 {
            EncounterSlot::Slot10
        } else {
            EncounterSlot::Slot11
        }
    }

    /// Whether the slot is one of the listed ones; with no list every slot is.
    pub fn passes_filter(filter: &Option<Vec<EncounterSlot>>, slot: EncounterSlot) -> (r: bool)
        ensures
            r == EncounterSlot::allowed(slots_view(*filter), slot),
    {
        match filter {
            None => true,
            Some(list) => {
                let mut i: usize = 0;
                while i < list.len()
                    invariant
                        i <= list.len(),
                        slots_view(*filter) == Some(list@),
                        forall|j: int| 0 <= j < i ==> list@[j] != slot,
                    decreases list.len() - i,
                {
                    if list[i] == slot {
                        return true;
                    }
                    i += 1;
                }
                false
            },
        }
    }
}

/// The table of an ordinary land area gives every selector the slot that
/// `EncounterSlot::of_rand` gives it.
pub proof fn lemma_land_table(rand: int)
    ensures
        table_slot(land_bounds(), rand) == EncounterSlot::of_rand(rand),
{
    reveal_with_fuel(first_bound_above, 13);
}

/// The list of slots that an optional vector holds.
pub open spec fn slots_view(filter: Option<Vec<EncounterSlot>>) -> Option<Seq<EncounterSlot>> {
    match filter {
        None => None,
        Some(list) => Some(list@),
    }
}

/// A slot table of another kind of area: the upper bound of each slot on a
/// scale of 100, in the order of the slots. The contents are area data that
/// the caller supplies.
#[derive(Clone, Debug)]
pub struct SlotTable {
    pub bounds: Vec<u8>,
}

/// The slot that a selector falls into with these bounds: the first whose
/// bound lies above it. A selector at or above every bound falls into the
/// slot after the last bound, and never past the twelfth slot.
pub open spec fn table_slot(bounds: Seq<u8>, rand: int) -> EncounterSlot {
    EncounterSlot::of_index(first_bound_above(bounds, rand, 0))
}

impl View for SlotTable {
    type V = Seq<u8>;

    open spec fn view(&self) -> Seq<u8> {
        self.bounds@
    }
}

impl SlotTable {
    /// The slot that a selector falls into.
    pub open spec fn slot_of(self, rand: int) -> EncounterSlot {
        table_slot(self@, rand)
    }

    /// The table of an ordinary land area.
    pub fn land() -> (r: SlotTable)
        ensures
            r.bounds@ == land_bounds(),
    {
        let mut bounds: Vec<u8> = Vec::new();
        bounds.push(20);
        bounds.push(40);
        bounds.push(50);
        bounds.push(60);
        bounds.push(70);
        bounds.push(80);
        bounds.push(85);
        bounds.push(90);
        bounds.push(94);
        bounds.push(98);
        bounds.push(99);
        bounds.push(100);
        SlotTable { bounds }
    }

    /// The slot that a selector falls into.
    pub fn slot_for(&self, rand: u8) -> (r: EncounterSlot)
        ensures
            r == self.slot_of(rand as int),
    {
        let mut i: usize = 0;
        while i < self.bounds.len()
            invariant
                i <= self.bounds.len(),
                first_bound_above(self.bounds@, rand as int, 0) == first_bound_above(
                    self.bounds@,
                    rand as int,
                    i as int,
                ),
            decreases self.bounds.len() - i,
        {
            if rand < self.bounds[i] {
                return EncounterSlot::from_index(i);
            }
            i += 1;
        }
        EncounterSlot::from_index(i)
    }
}

/// The lead creature's influence on an encounter.
#[derive(Clone, Copy, Debug, PartialEq, Eq, Structural)]
pub enum Gen3Lead {
    /// The lead hands its nature on with every second encounter.
    Synchronize(Nature),
    /// The lead, of this gender, draws two encounters in three to the other
    /// gender.
    CuteCharm(Gender),
}

/// The five ways the draws of one encounter can fall, depending on where the
/// frame's interrupt takes a draw of its own.
#[derive(Clone, Copy, Debug, PartialEq, Eq, Structural)]
pub enum Gen3Method {
    /// No draw is lost.
    Wild1,
    /// A draw is lost between the personality value and the first word of
    /// individual values.
    Wild2,
    /// A draw is lost between the two halves of a personality value.
    Wild3,
    /// A draw is lost between the two words of individual values.
    Wild4,
    /// A draw is lost after a rejected personality value.
    Wild5,
}

impl Gen3Method {
    /// Whether the method is one of the listed ones.
    pub fn is_in(self, methods: &Vec<Gen3Method>) -> (r: bool)
        ensures
            r == methods@.contains(self),
    {
        let mut i: usize = 0;
        while i < methods.len()
            invariant
                i <= methods.len(),
                forall|j: int| 0 <= j < i ==> methods@[j] != self,
            decreases methods.len() - i,
        {
            if methods[i] == self {
                return true;
            }
            i += 1;
        }
        false
    }
}

} // verus!
