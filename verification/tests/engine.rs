use time_for_food::clock::TimeOfDay;
use time_for_food::food::engine::{Block, SplitBlock};
use time_for_food::food::{Amount, Food, Fraction, IString, Nutrition, RawFood, Recipe, Unit};

fn at(hour: u32, min: u32) -> TimeOfDay {
    TimeOfDay::from_hms(hour, min, 0).unwrap()
}

fn one() -> Fraction {
    Fraction::from_integer(1)
}

/// A food called `short_code` that takes `minutes` minutes.
fn food(short_code: &str, minutes: i32) -> Food {
    Food::new_from_recipe(Recipe::new(
        IString::new(short_code),
        Amount::new(Unit, one()),
        one(),
        Vec::new(),
        Vec::new(),
        Fraction::from_integer(minutes),
        Nutrition,
    ))
}

fn raw(short_code: &str) -> Food {
    Food::new_from_raw_food(RawFood::new(IString::new(short_code), Amount::new(Unit, one()), Nutrition))
}

#[test]
fn free_block_is_split_in_two() {
    let block = Block::new(at(9, 0), at(10, 0), None);
    let a = food("a", 30);
    let expected = SplitBlock::Split(
        Block::new(at(9, 0), at(9, 30), Some(food("a", 30))),
        Block::new(at(9, 30), at(10, 0), None),
    );
    assert_eq!(block.split_at_start(&a), expected);
}

#[test]
fn free_block_filled_exactly_leaves_a_block_without_length() {
    let block = Block::new(at(9, 0), at(9, 30), None);
    let a = food("a", 30);
    let expected = SplitBlock::Split(
        Block::new(at(9, 0), at(9, 30), Some(food("a", 30))),
        Block::new(at(9, 30), at(9, 30), None),
    );
    assert_eq!(block.split_at_start(&a), expected);
}

#[test]
fn food_that_does_not_fit_is_refused() {
    let block = Block::new(at(9, 0), at(10, 0), Some(food("x", 20)));
    let a = food("a", 50);
    assert_eq!(block.split_at_start(&a), SplitBlock::Failure(at(10, 10)));
}

#[test]
fn food_in_the_block_is_moved_back() {
    let block = Block::new(at(9, 0), at(9, 50), Some(food("x", 20)));
    let a = food("a", 30);
    let expected = SplitBlock::Split(
        Block::new(at(9, 0), at(9, 30), Some(food("a", 30))),
        Block::new(at(9, 30), at(9, 50), Some(food("x", 20))),
    );
    assert_eq!(block.split_at_start(&a), expected);
}

#[test]
fn exact_fit_replaces_the_food_in_the_block() {
    // A raw food takes no time, so the new food may end where the block ends.
    let block = Block::new(at(9, 0), at(9, 30), Some(raw("x")));
    let a = food("a", 30);
    let expected = SplitBlock::Replace(Block::new(at(9, 0), at(9, 30), Some(food("a", 30))));
    assert_eq!(block.split_at_start(&a), expected);
}

#[test]
fn exact_end_does_not_replace_when_the_old_food_needs_time() {
    let block = Block::new(at(9, 0), at(9, 30), Some(food("x", 20)));
    let a = food("a", 30);
    assert_eq!(block.split_at_start(&a), SplitBlock::Failure(at(9, 50)));
}

#[test]
fn failure_holds_the_start_plus_both_durations() {
    let block = Block::new(at(13, 15), at(13, 45), Some(food("x", 15)));
    assert_eq!(block.split_at_start(&food("a", 16)), SplitBlock::Failure(at(13, 46)));
    let free = Block::new(at(13, 15), at(13, 45), None);
    assert_eq!(free.split_at_start(&food("a", 31)), SplitBlock::Failure(at(13, 46)));
    assert_eq!(free.split_at_start(&food("a", 600)), SplitBlock::Failure(at(23, 15)));
}

#[test]
fn food_that_ends_with_the_block_fits() {
    let block = Block::new(at(9, 0), at(10, 0), Some(food("x", 20)));
    let expected = SplitBlock::Split(
        Block::new(at(9, 0), at(9, 40), Some(food("a", 40))),
        Block::new(at(9, 40), at(10, 0), Some(food("x", 20))),
    );
    assert_eq!(block.split_at_start(&food("a", 40)), expected);
    assert_eq!(block.split_at_start(&food("a", 41)), SplitBlock::Failure(at(10, 1)));
}

#[test]
fn split_blocks_lie_end_to_end() {
    let block = Block::new(at(8, 0), at(12, 0), Some(food("x", 45)));
    let a = food("a", 75);
    match block.split_at_start(&a) {
        SplitBlock::Split(first, second) => {
            assert_eq!(first.get_start(), block.get_start());
            assert_eq!(*first.get_end(), at(9, 15));
            assert_eq!(second.get_start(), first.get_end());
            assert_eq!(second.get_end(), block.get_end());
            assert_eq!(first.get_food(), Some(&a));
            assert_eq!(second.get_food(), block.get_food());
            assert!(first.get_start() <= first.get_end());
            assert!(second.get_start() <= second.get_end());
        }
        other => panic!("expected a split, got {:?}", other),
    }
}

#[test]
fn split_leaves_block_and_food_as_they_were() {
    let block = Block::new(at(9, 0), at(10, 0), Some(food("x", 20)));
    let a = food("a", 30);
    let outcome = block.split_at_start(&a);
    assert_eq!(block, Block::new(at(9, 0), at(10, 0), Some(food("x", 20))));
    assert_eq!(a, food("a", 30));
    // A refusal leaves them as they were, too.
    let refused = block.split_at_start(&food("b", 50));
    assert_eq!(refused, SplitBlock::Failure(at(10, 10)));
    assert_eq!(block, Block::new(at(9, 0), at(10, 0), Some(food("x", 20))));
    // The same question gets the same answer.
    assert_eq!(block.split_at_start(&a), outcome);
}

#[test]
fn foods_in_the_outcome_are_copies_of_their_own() {
    let block = Block::new(at(9, 0), at(10, 0), Some(food("x", 20)));
    let a = food("a", 30);
    match block.split_at_start(&a) {
        SplitBlock::Split(mut first, mut second) => {
            first.add_food(food("other", 1));
            second.add_food(food("another", 2));
            assert_eq!(a, food("a", 30));
            assert_eq!(block.get_food(), Some(&food("x", 20)));
        }
        other => panic!("expected a split, got {:?}", other),
    }
}

#[test]
fn food_of_no_duration_splits_at_the_start() {
    let block = Block::new(at(9, 0), at(10, 0), None);
    let expected = SplitBlock::Split(
        Block::new(at(9, 0), at(9, 0), Some(raw("salt"))),
        Block::new(at(9, 0), at(10, 0), None),
    );
    assert_eq!(block.split_at_start(&raw("salt")), expected);
}

#[test]
fn block_without_length_takes_only_food_of_no_duration() {
    let block = Block::new(at(9, 0), at(9, 0), None);
    assert_eq!(block.split_at_start(&food("a", 1)), SplitBlock::Failure(at(9, 1)));
    let expected = SplitBlock::Split(
        Block::new(at(9, 0), at(9, 0), Some(raw("salt"))),
        Block::new(at(9, 0), at(9, 0), None),
    );
    assert_eq!(block.split_at_start(&raw("salt")), expected);
}

#[test]
fn fractions_of_a_second_are_cut_off_before_splitting() {
    // 1/7 minute is 8.57 s: the food takes 8 s.
    let a = Food::new_from_recipe(Recipe::new(
        IString::new("a"),
        Amount::new(Unit, one()),
        one(),
        Vec::new(),
        Vec::new(),
        Fraction::new(1, 7).unwrap(),
        Nutrition,
    ));
    let block = Block::new(at(9, 0), TimeOfDay::from_hms(9, 0, 8).unwrap(), None);
    match block.split_at_start(&a) {
        SplitBlock::Split(first, second) => {
            assert_eq!(*first.get_end(), TimeOfDay::from_hms(9, 0, 8).unwrap());
            assert_eq!(second.get_start(), second.get_end());
        }
        other => panic!("expected a split, got {:?}", other),
    }
}

#[test]
fn nanoseconds_of_the_start_are_kept() {
    let start = TimeOfDay::from_num_seconds_from_midnight(32_400, 500_000_000).unwrap();
    let block = Block::new(start, at(9, 30), None);
    // 09:00:00.5 plus 30 min is after 09:30:00.
    let late = TimeOfDay::from_num_seconds_from_midnight(34_200, 500_000_000).unwrap();
    assert_eq!(block.split_at_start(&food("a", 30)), SplitBlock::Failure(late));
}

#[test]
fn sum_past_midnight_wraps_around() {
    let block = Block::new(at(23, 30), at(23, 59), None);
    let expected = SplitBlock::Split(
        Block::new(at(23, 30), at(0, 30), Some(food("a", 60))),
        Block::new(at(0, 30), at(23, 59), None),
    );
    assert_eq!(block.split_at_start(&food("a", 60)), expected);
}

#[test]
fn new_block_keeps_its_parts() {
    let free = Block::new(at(9, 0), at(10, 0), None);
    assert_eq!(*free.get_start(), at(9, 0));
    assert_eq!(*free.get_end(), at(10, 0));
    assert!(!free.has_food());
    assert_eq!(free.get_food(), None);

    let taken = Block::new(at(11, 0), at(12, 0), Some(food("x", 20)));
    assert_eq!(*taken.get_start(), at(11, 0));
    assert_eq!(*taken.get_end(), at(12, 0));
    assert!(taken.has_food());
    assert_eq!(taken.get_food(), Some(&food("x", 20)));
}

#[test]
fn new_block_is_not_checked() {
    let backward = Block::new(at(10, 0), at(9, 0), None);
    assert_eq!(*backward.get_start(), at(10, 0));
    assert_eq!(*backward.get_end(), at(9, 0));
}

#[test]
fn add_food_overwrites_without_splitting() {
    let mut block = Block::new(at(9, 0), at(10, 0), None);
    block.add_food(food("x", 20));
    assert!(block.has_food());
    assert_eq!(block.get_food(), Some(&food("x", 20)));
    block.add_food(food("y", 500));
    assert_eq!(block.get_food(), Some(&food("y", 500)));
    assert_eq!(*block.get_start(), at(9, 0));
    assert_eq!(*block.get_end(), at(10, 0));
}
