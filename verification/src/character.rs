//! Player characters and the adventuring party: ability scores, hit points,
//! and the roster whose order drives spawn assignment and formation.

use vstd::prelude::*;

use crate::types::CharacterId;

verus! {

/// A character's ancestry.
#[derive(Debug, Clone, Copy, PartialEq, Eq, Structural)]
pub enum Ancestry {
    Human,
    Elf,
    Dwarf,
    Gnome,
    Halfling,
    Goblin,
    Orc,
    Leshy,
}

/// A character's class.
#[derive(Debug, Clone, Copy, PartialEq, Eq, Structural)]
pub enum Class {
    Fighter,
    Rogue,
    Wizard,
    Cleric,
    Ranger,
    Bard,
    Barbarian,
    Monk,
}

/// Core ability scores.
#[derive(Debug, Clone, Copy, PartialEq, Eq, Structural)]
pub struct AbilityScores {
    pub strength: i8,
    pub dexterity: i8,
    pub constitution: i8,
    pub intelligence: i8,
    pub wisdom: i8,
    pub charisma: i8,
}

impl AbilityScores {
    /// The modifier a score grants: half the distance from 10, rounded
    /// towards zero.
    pub open spec fn spec_modifier(score: i8) -> int {
        if score >= 10 {
            (score - 10) / 2
        } else {
            -((10 - score) / 2)
        }
    }

    /// The modifier a score grants.
    pub fn modifier(score: i8) -> (m: i8)
        requires
            score >= i8::MIN + 10,
        ensures
            m == Self::spec_modifier(score),
    {
        if score >= 10 {
            (score - 10) / 2
        } else {
            let d = (10 - score as i32) / 2;
            (-d) as i8
        }
    }
}

impl Default for AbilityScores {
    /// An unremarkable character: every score 10, every modifier zero.
    fn default() -> (r: AbilityScores)
        ensures
            r == (AbilityScores {
                strength: 10,
                dexterity: 10,
                constitution: 10,
                intelligence: 10,
                wisdom: 10,
                charisma: 10,
            }),
    {
        AbilityScores {
            strength: 10,
            dexterity: 10,
            constitution: 10,
            intelligence: 10,
            wisdom: 10,
            charisma: 10,
        }
    }
}

/// A player character.
#[derive(Debug)]
pub struct Character {
    pub id: CharacterId,
    pub name: String,
    pub ancestry: Ancestry,
    pub class: Class,
    pub level: u8,
    pub abilities: AbilityScores,
    pub max_hp: i32,
    pub current_hp: i32,
    pub armor_class: u8,
    pub speed: u8,
}

/// The mathematical value of a [`Character`].
pub struct CharacterV {
    pub id: CharacterId,
    pub name: Seq<char>,
    pub ancestry: Ancestry,
    pub class: Class,
    pub level: u8,
    pub abilities: AbilityScores,
    pub max_hp: i32,
    pub current_hp: i32,
    pub armor_class: u8,
    pub speed: u8,
}

impl View for Character {
    type V = CharacterV;

    open spec fn view(&self) -> CharacterV {
        CharacterV {
            id: self.id,
            name: self.name@,
            ancestry: self.ancestry,
            class: self.class,
            level: self.level,
            abilities: self.abilities,
            max_hp: self.max_hp,
            current_hp: self.current_hp,
            armor_class: self.armor_class,
            speed: self.speed,
        }
    }
}

impl DeepView for Character {
    type V = CharacterV;

    open spec fn deep_view(&self) -> CharacterV {
        self.view()
    }
}

impl Character {
    /// A fresh first-level character with default scores, 20 hit points,
    /// armor class 15 and a speed of 25 feet.
    pub fn new(id: CharacterId, name: &str, ancestry: Ancestry, class: Class) -> (c: Character)
        ensures
            c.id == id,
            c.name@ == name@,
            c.ancestry == ancestry,
            c.class == class,
            c.level == 1,
            c.abilities == (AbilityScores {
                strength: 10,
                dexterity: 10,
                constitution: 10,
                intelligence: 10,
                wisdom: 10,
                charisma: 10,
            }),
            c.max_hp == 20,
            c.current_hp == 20,
            c.armor_class == 15,
            c.speed == 25,
    {
        Character {
            id,
            name: name.to_owned(),
            ancestry,
            class,
            level: 1,
            abilities: AbilityScores::default(),
            max_hp: 20,
            current_hp: 20,
            armor_class: 15,
            speed: 25,
        }
    }

    /// Whether the character still stands: strictly positive hit points.
    pub fn is_alive(&self) -> (b: bool)
        ensures
            b == (self.current_hp > 0),
    {
        self.current_hp > 0
    }
}

/// The adventuring party: roster order is turn and formation order.
#[derive(Debug)]
pub struct Party {
    pub members: Vec<CharacterId>,
    pub formation: Vec<(CharacterId, i8, i8)>,
    pub rations: u32,
    pub gold: u32,
}

impl Party {
    /// Structural invariant: member ids are unique, and the formation list is
    /// in lockstep with the roster.
    pub open spec fn wf(&self) -> bool {
        &&& self.members@.no_duplicates()
        &&& self.formation@.len() == self.members@.len()
        &&& (forall|i: int|
            0 <= i < self.members@.len() ==> (#[trigger] self.formation@[i]).0
                == self.members@[i])
    }

    /// An empty party holding the starting supplies.
    pub fn new() -> (p: Party)
        ensures
            p.wf(),
            p.members@.len() == 0,
            p.formation@.len() == 0,
            p.rations == 10,
            p.gold == 50,
    {
        Party { members: Vec::new(), formation: Vec::new(), rations: 10, gold: 50 }
    }

    /// Add a character to the back of the roster; a character already in the
    /// party is left where it stands.
    pub fn add_member(&mut self, id: CharacterId)
        requires
            old(self).wf(),
            old(self).members@.contains(id) || old(self).members@.len() < 128,
        ensures
            final(self).wf(),
            final(self).rations == old(self).rations,
            final(self).gold == old(self).gold,
            old(self).members@.contains(id) ==> *final(self) == *old(self),
            !old(self).members@.contains(id) ==> {
                &&& final(self).members@ == old(self).members@.push(id)
                &&& final(self).formation@ == old(self).formation@.push(
                    (id, old(self).members@.len() as i8, 0i8),
                )
            },
    {
        if !contains_member(&self.members, id) {
            let offset = self.members.len() as i8;
            self.members.push(id);
            self.formation.push((id, offset, 0));
            proof {
                assert forall|a: int, b: int|
                    0 <= a < self.members@.len() && 0 <= b < self.members@.len() && a
                        != b implies self.members@[a] != self.members@[b] by {
                    let n = old(self).members@.len() as int;
                    if a < n && b < n {
                        assert(old(self).members@[a] != old(self).members@[b]);
                    } else if a == n {
                        assert(old(self).members@.contains(id) == false);
                        if old(self).members@[b] == id {
                            assert(old(self).members@.contains(id));
                        }
                    } else {
                        if old(self).members@[a] == id {
                            assert(old(self).members@.contains(id));
                        }
                    }
                }
            }
        }
    }
}

impl Default for Party {
    /// The empty starting party.
    fn default() -> (p: Party)
        ensures
            p.wf(),
            p.members@.len() == 0,
            p.formation@.len() == 0,
            p.rations == 10,
            p.gold == 50,
    {
        Party::new()
    }
}

/// Whether the roster holds `id`, by linear scan.
fn contains_member(v: &Vec<CharacterId>, id: CharacterId) -> (b: bool)
    ensures
        b == v@.contains(id),
{
    let mut i: usize = 0;
    while i < v.len()
        invariant
            i <= v@.len(),
            forall|j: int| 0 <= j < i ==> v@[j] != id,
        decreases v@.len() - i,
    {
        if v[i] == id {
            return true;
        }
        i = i + 1;
    }
    false
}

} // verus!
