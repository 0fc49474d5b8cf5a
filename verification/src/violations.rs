use crate::character::{CharacterId, Position};
use crate::encounter::EncounterId;
use crate::operation::{Operation, OperationType};
use vstd::prelude::*;

verus! {

/// A breach of the rules, with the numbers that explain it. Limits and ranges
/// are in feet; what was measured is in feet, rounded down.
#[derive(Copy, Clone, Debug, PartialEq, Eq)]
pub enum Violation {
    CharacterMovementExceeded {
        character_id: CharacterId,
        maximum_movement: i64,
        current_movement: u128,
        request_movement: u64,
    },
    AttackNotInRange {
        request_character_id: CharacterId,
        target_character_id: CharacterId,
        attack_range: i64,
        current_range: u64,
    },
    CastNotInRange {
        request_character_id: CharacterId,
        target_position: Position,
        spell_range: i64,
        current_range: u64,
    },
}

/// The feet that an operation counts towards a character's movement in its
/// turn of a round: those of a move by the character that was recorded in the
/// encounter during that turn, and none for any other operation.
pub open spec fn moved_feet(
    operation: Operation,
    encounter_id: EncounterId,
    round: i32,
    character_id: CharacterId,
) -> nat {
    if operation.spec_in_turn(encounter_id, round, character_id) && operation.character_id
        == character_id {
        match operation.operation_type {
            OperationType::Move(mov) => mov.feet as nat,
            _ => 0,
        }
    } else {
        0
    }
}

/// The feet that a character has moved in its turn of a round, by the
/// operations given.
pub open spec fn already_moved(
    operations: Seq<Operation>,
    encounter_id: EncounterId,
    round: i32,
    character_id: CharacterId,
) -> nat
    decreases operations.len(),
{
    if operations.len() == 0 {
        0
    } else {
        already_moved(operations.drop_last(), encounter_id, round, character_id) + moved_feet(
            operations.last(),
            encounter_id,
            round,
            character_id,
        )
    }
}

/// The violations of a move of `feet` by a character of the given speed that
/// has moved `moved` feet already: one where the two together exceed the speed.
pub open spec fn movement_violations(
    character_id: CharacterId,
    speed: i32,
    moved: nat,
    feet: u64,
) -> Seq<Violation> {
    if speed < moved + feet {
        seq![
            Violation::CharacterMovementExceeded {
                character_id,
                maximum_movement: speed as i64,
                current_movement: moved as u128,
                request_movement: feet,
            },
        ]
    } else {
        Seq::empty()
    }
}

/// The violations of an attack of the given range from one position on a
/// target at another: one where the distance exceeds the range.
pub open spec fn attack_range_violations(
    request_character_id: CharacterId,
    target_character_id: CharacterId,
    attack_range: i64,
    source: Position,
    target: Position,
) -> Seq<Violation> {
    if attack_range < source.spec_distance(&target) {
        seq![
            Violation::AttackNotInRange {
                request_character_id,
                target_character_id,
                attack_range,
                current_range: source.spec_distance(&target) as u64,
            },
        ]
    } else {
        Seq::empty()
    }
}

/// The violations of a spell of the given range cast from one position at
/// another: one where the distance exceeds the range.
pub open spec fn cast_range_violations(
    request_character_id: CharacterId,
    spell_range: i64,
    source: Position,
    target_position: Position,
) -> Seq<Violation> {
    if source.spec_distance(&target_position) > spell_range {
        seq![
            Violation::CastNotInRange {
                request_character_id,
                target_position,
                spell_range,
                current_range: source.spec_distance(&target_position) as u64,
            },
        ]
    } else {
        Seq::empty()
    }
}

/// The feet that a character has moved in its turn of a round, by the
/// operations given.
pub fn already_moved_feet(
    operations: &Vec<Operation>,
    encounter_id: EncounterId,
    round: i32,
    character_id: CharacterId,
) -> (moved: u128)
    ensures
        moved == already_moved(operations@, encounter_id, round, character_id),
{
    let mut moved: u128 = 0;
    let mut i: usize = 0;
    assert(operations@.take(0) =~= Seq::empty());
    while i < operations.len()
        invariant
            i <= operations@.len(),
            moved == already_moved(operations@.take(i as int), encounter_id, round, character_id),
            moved <= i * 0xFFFF_FFFF_FFFF_FFFFu128,
        decreases operations@.len() - i,
    {
        proof {
            let next = operations@.take(i + 1);
            assert(next.drop_last() =~= operations@.take(i as int));
            assert(next.last() == operations@[i as int]);
        }
        let operation = &operations[i];
        let mut feet: u64 = 0;
        if operation.in_turn(encounter_id, round, character_id) && operation.character_id
            == character_id {
            match operation.operation_type.as_move() {
                Some(mov) => {
                    feet = mov.feet;
                },
                None => {},
            }
        }
        assert(feet == moved_feet(operations@[i as int], encounter_id, round, character_id));
        assert((i + 1) * 0xFFFF_FFFF_FFFF_FFFFu128 == i * 0xFFFF_FFFF_FFFF_FFFFu128
            + 0xFFFF_FFFF_FFFF_FFFFu128) by (nonlinear_arith);
        assert(i * 0xFFFF_FFFF_FFFF_FFFFu128 <= 0xFFFF_FFFF_FFFF_FFFFu128
            * 0xFFFF_FFFF_FFFF_FFFFu128) by (nonlinear_arith)
            requires
                0 <= i <= 0xFFFF_FFFF_FFFF_FFFFu128,
        ;
        moved = moved + feet as u128;
        i += 1;
    }
    assert(operations@.take(operations@.len() as int) =~= operations@);
    moved
}

/// Checks a move of `feet` by a character of the given speed that has moved
/// `moved` feet already against its movement for the turn.
pub fn check_movement(character_id: CharacterId, speed: i32, moved: u128, feet: u64) -> (violations:
    Vec<Violation>)
    ensures
        violations@ == movement_violations(character_id, speed, moved as nat, feet),
{
    let mut violations: Vec<Violation> = Vec::new();
    let exceeded = speed < 0 || moved > 0xFFFF_FFFFu128 || moved + feet as u128 > speed as u128;
    if exceeded {
        violations.push(
            Violation::CharacterMovementExceeded {
                character_id,
                maximum_movement: speed as i64,
                current_movement: moved,
                request_movement: feet,
            },
        );
    }
    violations
}

/// Checks an attack of the given range from one position on a target at
/// another against the distance between them.
pub fn check_attack_range(
    request_character_id: CharacterId,
    target_character_id: CharacterId,
    attack_range: i64,
    source: &Position,
    target: &Position,
) -> (violations: Vec<Violation>)
    ensures
        violations@ == attack_range_violations(
            request_character_id,
            target_character_id,
            attack_range,
            *source,
            *target,
        ),
{
    let mut violations: Vec<Violation> = Vec::new();
    let current_range: u64 = source.distance(target);
    if attack_range < 0 || (attack_range as u64) < current_range {
        violations.push(
            Violation::AttackNotInRange {
                request_character_id,
                target_character_id,
                attack_range,
                current_range,
            },
        );
    }
    violations
}

/// Checks a spell of the given range cast from one position at another
/// against the distance between them.
pub fn check_cast_range(
    request_character_id: CharacterId,
    spell_range: i64,
    source: &Position,
    target_position: &Position,
) -> (violations: Vec<Violation>)
    ensures
        violations@ == cast_range_violations(
            request_character_id,
            spell_range,
            *source,
            *target_position,
        ),
{
    let mut violations: Vec<Violation> = Vec::new();
    let current_range: u64 = source.distance(target_position);
    if spell_range < 0 || current_range > spell_range as u64 {
        violations.push(
            Violation::CastNotInRange {
                request_character_id,
                target_position: *target_position,
                spell_range,
                current_range,
            },
        );
    }
    violations
}

} // verus!
