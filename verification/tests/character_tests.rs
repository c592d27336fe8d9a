use pathfinder_core::character::{AbilityScores, Ancestry, Character, Class, Party};

#[test]
fn ability_modifier_is_half_the_distance_from_ten_toward_zero() {
    assert_eq!(AbilityScores::modifier(10), 0);
    assert_eq!(AbilityScores::modifier(11), 0);
    assert_eq!(AbilityScores::modifier(12), 1);
    assert_eq!(AbilityScores::modifier(18), 4);
    assert_eq!(AbilityScores::modifier(9), 0);
    assert_eq!(AbilityScores::modifier(8), -1);
    assert_eq!(AbilityScores::modifier(7), -1);
    assert_eq!(AbilityScores::modifier(6), -2);
    assert_eq!(AbilityScores::modifier(1), -4);
}

#[test]
fn default_scores_are_all_ten() {
    let a = AbilityScores::default();
    assert_eq!(a.strength, 10);
    assert_eq!(a.dexterity, 10);
    assert_eq!(a.constitution, 10);
    assert_eq!(a.intelligence, 10);
    assert_eq!(a.wisdom, 10);
    assert_eq!(a.charisma, 10);
}

#[test]
fn new_character_starts_at_level_one_with_default_stats() {
    let c = Character::new(3, "Valeria", Ancestry::Human, Class::Fighter);
    assert_eq!(c.id, 3);
    assert_eq!(c.name, "Valeria");
    assert_eq!(c.ancestry, Ancestry::Human);
    assert_eq!(c.class, Class::Fighter);
    assert_eq!(c.level, 1);
    assert_eq!(c.max_hp, 20);
    assert_eq!(c.current_hp, 20);
    assert_eq!(c.armor_class, 15);
    assert_eq!(c.speed, 25);
}

#[test]
fn character_is_alive_iff_hit_points_are_positive() {
    let mut c = Character::new(1, "Brak", Ancestry::Dwarf, Class::Cleric);
    assert!(c.is_alive());
    c.current_hp = 0;
    assert!(!c.is_alive());
    c.current_hp = -3;
    assert!(!c.is_alive());
}

#[test]
fn new_party_starts_with_supplies_and_no_members() {
    let p = Party::new();
    assert!(p.members.is_empty());
    assert!(p.formation.is_empty());
    assert_eq!(p.rations, 10);
    assert_eq!(p.gold, 50);
}

#[test]
fn add_member_keeps_roster_order_and_ignores_duplicates() {
    let mut p = Party::new();
    p.add_member(5);
    p.add_member(9);
    p.add_member(5);
    assert_eq!(p.members, vec![5, 9]);
    assert_eq!(p.formation, vec![(5, 0, 0), (9, 1, 0)]);
}
