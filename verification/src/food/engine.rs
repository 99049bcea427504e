//! Blocks of time in a day and the foods placed in them.
use crate::clock::{
    lemma_plus_forward, lemma_plus_nothing, lemma_plus_twice, lemma_time_of_day_by_value,
    ClockTime, TimeOfDay, SECONDS_PER_DAY,
};
use crate::food::{Food, FoodView};
use vstd::prelude::*;

verus! {

/// The mathematical value of a [`Block`].
pub struct BlockView {
    pub start: ClockTime,
    pub end: ClockTime,
    pub food: Option<FoodView>,
}

/// The mathematical value of a [`SplitBlock`].
pub enum SplitBlockView {
    Replace(BlockView),
    Split(BlockView, BlockView),
    Failure(ClockTime),
}

/// The value of a food that may be absent.
pub open spec fn optional_food_view(food: Option<Food>) -> Option<FoodView> {
    match food {
        Some(food) => Some(food@),
        None => None,
    }
}

impl BlockView {
    /// Whether the block does not end before it starts. A block of no length
    /// is in order.
    pub open spec fn in_order(self) -> bool {
        self.start.le(self.end)
    }

    /// The seconds that the food in the block takes; none for a free block.
    pub open spec fn occupied_seconds(self) -> int {
        match self.food {
            Some(existing) => existing.duration_seconds(),
            None => 0,
        }
    }

    /// The time at which the block has to end, at the earliest, for `food`
    /// to be placed at its start, ahead of the food the block holds. Times
    /// are added as [`ClockTime::plus`] adds them: a sum past midnight wraps
    /// around.
    pub open spec fn required_end(self, food: FoodView) -> ClockTime {
        match self.food {
            Some(existing) => self.start.plus(existing.duration_seconds()).plus(
                food.duration_seconds(),
            ),
            None => self.start.plus(food.duration_seconds()),
        }
    }

    /// The time at which `food`, placed at the start of the block, is done.
    pub open spec fn split_point(self, food: FoodView) -> ClockTime {
        self.start.plus(food.duration_seconds())
    }

    /// Whether `food` can be placed at the start of the block, ahead of the
    /// food the block holds.
    pub open spec fn fits(self, food: FoodView) -> bool {
        !self.end.lt(self.required_end(food))
    }

    /// What placing `food` at the start of the block gives.
    ///
    /// Where the food does not fit, the end time the block would need. Where
    /// the food ends exactly at the end of a block that holds a food already,
    /// the whole block with the new food in place of the old. Otherwise two
    /// blocks: the new food up to the split point, and after it what the
    /// block held before.
    pub open spec fn split_at_start(self, food: FoodView) -> SplitBlockView {
        let middle = self.split_point(food);
        if !self.fits(food) {
            SplitBlockView::Failure(self.required_end(food))
        } else if middle == self.end && self.food.is_some() {
            SplitBlockView::Replace(
                BlockView { start: self.start, end: middle, food: Some(food) },
            )
        } else {
            SplitBlockView::Split(
                BlockView { start: self.start, end: middle, food: Some(food) },
                BlockView { start: middle, end: self.end, food: self.food },
            )
        }
    }
}

/// A block of time: from a start to an end, with the food that occupies it,
/// if any.
///
/// Times carry no time zone, so that a schedule holds wherever it is used.
#[derive(Debug, PartialEq, Eq)]
pub struct Block {
    start: TimeOfDay,
    end: TimeOfDay,
    food: Option<Food>,
}

impl View for Block {
    type V = BlockView;

    closed spec fn view(&self) -> BlockView {
        BlockView { start: self.start@, end: self.end@, food: optional_food_view(self.food) }
    }
}

/// What [`Block::split_at_start`] found.
#[derive(Debug, PartialEq, Eq)]
pub enum SplitBlock {
    /// The food takes all the time of the block, which held a food already:
    /// the one block that takes its place, with the new food. The food that
    /// the block held is not in it: the caller decides what becomes of it.
    Replace(Block),
    /// The block was split in two: first the new food, then the rest.
    Split(Block, Block),
    /// The food does not fit. Holds the end time that the block would need
    /// for the food to fit.
    Failure(TimeOfDay),
}

impl View for SplitBlock {
    type V = SplitBlockView;

    closed spec fn view(&self) -> SplitBlockView {
        match self {
            SplitBlock::Replace(block) => SplitBlockView::Replace(block@),
            SplitBlock::Split(first, second) => SplitBlockView::Split(first@, second@),
            SplitBlock::Failure(time) => SplitBlockView::Failure(time@),
        }
    }
}

impl Block {
    /// A block from its parts. The caller sees to it that the block does not
    /// end before it starts: nothing is checked here.
    pub fn new(start: TimeOfDay, end: TimeOfDay, food: Option<Food>) -> (r: Block)
        ensures
            r@ == (BlockView { start: start@, end: end@, food: optional_food_view(food) }),
            r@.in_order() <==> start@.le(end@),
    {
        Block { start, end, food }
    }

    /// The start of the block.
    pub fn get_start(&self) -> (r: &TimeOfDay)
        ensures
            r@ == self@.start,
            r@.is_valid(),
    {
        proof {
            use_type_invariant(&self.start);
        }
        &self.start
    }

    /// The end of the block.
    pub fn get_end(&self) -> (r: &TimeOfDay)
        ensures
            r@ == self@.end,
            r@.is_valid(),
    {
        proof {
            use_type_invariant(&self.end);
        }
        &self.end
    }

    /// Whether a food occupies the block.
    pub fn has_food(&self) -> (r: bool)
        ensures
            r == self@.food.is_some(),
    {
        self.food.is_some()
    }

    /// The food that occupies the block, if any.
    pub fn get_food(&self) -> (r: Option<&Food>)
        ensures
            r.is_some() == self@.food.is_some(),
            r matches Some(food) ==> self@.food == Some(food@),
    {
        self.food.as_ref()
    }

    /// Puts `food` into the block, in place of the food it held, if any. The
    /// times of the block stay as they are.
    pub fn add_food(&mut self, food: Food)
        ensures
            final(self)@ == (BlockView { food: Some(food@), ..old(self)@ }),
            final(self)@.in_order() <==> old(self)@.in_order(),
    {
        self.food = Some(food);
    }

    /// Tries to place `food` at the start of the block, ahead of the food
    /// that the block holds, if any.
    ///
    /// Times are added on the clock: a sum past midnight wraps around.
    /// Neither the block nor the food changes: the blocks that come back
    /// hold copies of the foods.
    pub fn split_at_start(&self, food: &Food) -> (r: SplitBlock)
        ensures
            r@ == self@.split_at_start(food@),
    {
        let duration = food.get_duration();
        let food_end = match &self.food {
            Some(existing_food) => self.start.plus(existing_food.get_duration()).plus(duration),
            None => self.start.plus(duration),
        };
        if food_end > self.end {
            SplitBlock::Failure(food_end)
        } else {
            let existing_food = match &self.food {
                Some(existing_food) => Some(existing_food.clone()),
                None => None,
            };
            let new_food = food.clone();
            let middle = self.start.plus(duration);
            proof {
                lemma_time_of_day_by_value(middle, self.end);
            }
            if middle == self.end && existing_food.is_some() {
                SplitBlock::Replace(Block::new(self.start, middle, Some(new_food)))
            } else {
                let first_block = Block::new(self.start, middle, Some(new_food));
                let second_block = Block::new(middle, self.end, existing_food);
                SplitBlock::Split(first_block, second_block)
            }
        }
    }
}

/// A food that does not fit is refused: where the start of the block, plus
/// the seconds of the food it holds (none for a free block), plus the
/// seconds of the new food, comes after the end of the block, the outcome is
/// a failure that holds exactly that sum.
pub proof fn lemma_no_fit_fails(block: BlockView, food: FoodView)
    requires
        block.start.is_valid(),
        block.end.lt(
            block.start.plus(block.occupied_seconds()).plus(food.duration_seconds()),
        ),
    ensures
        block.split_at_start(food) == SplitBlockView::Failure(
            block.start.plus(block.occupied_seconds()).plus(food.duration_seconds()),
        ),
{
    lemma_plus_nothing(block.start);
}

/// Where no food takes a negative time, the end time that the block needs is
/// its start plus the seconds of both foods together.
pub proof fn lemma_required_end_is_start_plus_total(block: BlockView, food: FoodView)
    requires
        block.start.is_valid(),
        block.occupied_seconds() >= 0,
        food.duration_seconds() >= 0,
    ensures
        block.required_end(food) == block.start.plus(
            block.occupied_seconds() + food.duration_seconds(),
        ),
{
    lemma_plus_twice(block.start, block.occupied_seconds(), food.duration_seconds());
}

/// The end time that a refusal holds is the least that lets the food fit: with
/// the same start and the same food in it, a block takes the new food exactly
/// when it ends at that time or later.
pub proof fn lemma_required_end_is_least(block: BlockView, food: FoodView, end: ClockTime)
    ensures
        (BlockView { end, ..block }).required_end(food) == block.required_end(food),
        (BlockView { end, ..block }).fits(food) <==> block.required_end(food).le(end),
{
}

/// A food is refused only where it does not fit, and a refusal holds the end
/// time that the block would need.
pub proof fn lemma_failure_only_without_fit(block: BlockView, food: FoodView)
    ensures
        block.split_at_start(food) is Failure <==> block.end.lt(block.required_end(food)),
        block.split_at_start(food) matches SplitBlockView::Failure(time) ==> time
            == block.required_end(food),
{
}

/// The two blocks of a split lie end to end over the span of the block that
/// was split: the first starts where that block starts and ends at the start
/// plus the seconds of the new food, the second starts there and ends where
/// the block ends.
pub proof fn lemma_split_endpoints(block: BlockView, food: FoodView)
    ensures
        block.split_at_start(food) matches SplitBlockView::Split(first, second) ==> {
            &&& first.start == block.start
            &&& first.end == block.start.plus(food.duration_seconds())
            &&& second.start == first.end
            &&& second.end == block.end
        },
{
}

/// In a split the first block holds the new food and the second block holds
/// what the block held before, or nothing if it was free.
pub proof fn lemma_split_occupants(block: BlockView, food: FoodView)
    ensures
        block.split_at_start(food) matches SplitBlockView::Split(first, second) ==> {
            &&& first.food == Some(food)
            &&& second.food == block.food
        },
{
}

/// Where the block holds a food, the new food ends exactly at the end of the
/// block, and the new food fits, the outcome is one block over the span of
/// the old one that holds the new food alone.
pub proof fn lemma_exact_fit_replaces(block: BlockView, food: FoodView)
    requires
        block.food.is_some(),
        block.start.plus(food.duration_seconds()) == block.end,
        block.fits(food),
    ensures
        block.split_at_start(food) == SplitBlockView::Replace(
            BlockView { start: block.start, end: block.end, food: Some(food) },
        ),
{
}

/// A free block is never replaced: a food that fits it splits it, even where
/// the second block is left without length.
pub proof fn lemma_free_block_splits(block: BlockView, food: FoodView)
    requires
        block.food.is_none(),
        block.fits(food),
    ensures
        block.split_at_start(food) == SplitBlockView::Split(
            BlockView { start: block.start, end: block.split_point(food), food: Some(food) },
            BlockView { start: block.split_point(food), end: block.end, food: None },
        ),
{
}

/// Blocks stay in order: where the block does not end before it starts, no
/// food takes a negative time, and the foods together end before midnight,
/// no block of the outcome ends before it starts.
pub proof fn lemma_outcome_in_order(block: BlockView, food: FoodView)
    requires
        block.start.is_valid(),
        block.end.is_valid(),
        block.in_order(),
        block.occupied_seconds() >= 0,
        food.duration_seconds() >= 0,
        block.start.secs + block.occupied_seconds() + food.duration_seconds() < SECONDS_PER_DAY,
    ensures
        match block.split_at_start(food) {
            SplitBlockView::Replace(whole) => whole.in_order(),
            SplitBlockView::Split(first, second) => first.in_order() && second.in_order(),
            SplitBlockView::Failure(_) => true,
        },
{
    lemma_plus_forward(block.start, food.duration_seconds());
    lemma_plus_forward(block.start, block.occupied_seconds());
    lemma_plus_forward(block.start.plus(block.occupied_seconds()), food.duration_seconds());
}

} // verus!
