//! Foods: what can be prepared, and how long it takes.
pub mod builder;
pub mod engine;
pub mod fraction;
pub mod istring;

pub use crate::food::builder::RecipeBuilder;
pub use crate::food::fraction::Fraction;
pub use crate::food::istring::IString;

use crate::clock::Duration;
use crate::food::fraction::{
    lemma_lowest_terms_same_truncation, lemma_lowest_terms_same_value, lemma_truncated_bounds,
    ratio_mul, ratio_to_integer, Quotient,
};
use crate::food::istring::IStringView;
use vstd::prelude::*;

verus! {

/// Number of seconds in a minute.
pub const SECONDS_PER_MINUTE: i32 = 60;

/// A unit of measure. Only one exists so far.
#[derive(Clone, Copy, Debug, PartialEq, Eq, Structural)]
pub struct Unit;

/// The nutritional value of a serving. It records nothing so far.
#[derive(Debug, PartialEq, Eq, Structural)]
pub struct Nutrition;

impl Clone for Nutrition {
    fn clone(&self) -> (r: Nutrition)
        ensures
            r == *self,
    {
        Nutrition
    }
}

/// The mathematical value of an [`Amount`].
pub struct AmountView {
    pub unit: Unit,
    pub amount: Quotient,
}

/// A quantity: a number of some unit.
#[derive(Clone, Copy, Debug, PartialEq, Eq, Structural)]
pub struct Amount {
    unit: Unit,
    amount: Fraction,
}

impl View for Amount {
    type V = AmountView;

    closed spec fn view(&self) -> AmountView {
        AmountView { unit: self.unit, amount: self.amount@ }
    }
}

impl Amount {
    /// The amount of `amount` times `unit`.
    pub fn new(unit: Unit, amount: Fraction) -> (r: Amount)
        ensures
            r@ == (AmountView { unit, amount: amount@ }),
    {
        Amount { unit, amount }
    }

    /// The unit of the amount.
    pub fn get_unit(&self) -> (r: Unit)
        ensures
            r == self@.unit,
    {
        self.unit
    }

    /// Changes the unit and keeps the number.
    pub fn set_unit(&mut self, unit: Unit)
        ensures
            final(self)@ == (AmountView { unit, ..old(self)@ }),
    {
        self.unit = unit;
    }

    /// The number of units.
    pub fn get_amount(&self) -> (r: Fraction)
        ensures
            r@ == self@.amount,
    {
        self.amount
    }

    /// Changes the number of units and keeps the unit.
    pub fn set_amount(&mut self, ratio: Fraction)
        ensures
            final(self)@ == (AmountView { amount: ratio@, ..old(self)@ }),
    {
        self.amount = ratio;
    }
}

/// The mathematical value of a [`Step`].
pub struct StepView {
    pub text: IStringView,
    pub time: Quotient,
}

/// One step of a recipe: what to do and how many minutes it takes.
#[derive(Debug, PartialEq, Eq)]
pub struct Step {
    text: IString,
    time: Fraction,
}

impl View for Step {
    type V = StepView;

    closed spec fn view(&self) -> StepView {
        StepView { text: self.text@, time: self.time@ }
    }
}

impl Step {
    /// A step that takes `time` minutes, with a text that has the given
    /// short code and no translation yet.
    pub fn new(short_code: &str, time: Fraction) -> (r: Step)
        ensures
            r@ == (StepView {
                text: IStringView {
                    short_code: short_code@,
                    names: Map::empty(),
                    default: Seq::empty(),
                },
                time: time@,
            }),
    {
        Step { text: IString::new(short_code), time }
    }

    /// The text of the step.
    pub fn get_text(&self) -> (r: &IString)
        ensures
            r@ == self@.text,
    {
        &self.text
    }

    /// The text of the step, to add translations to.
    pub fn get_mut_text(&mut self) -> (r: &mut IString)
        ensures
            r@ == old(self)@.text,
            final(self)@ == (StepView { text: final(r)@, ..old(self)@ }),
    {
        &mut self.text
    }

    /// The minutes the step takes.
    pub fn get_time(&self) -> (r: Fraction)
        ensures
            r@ == self@.time,
    {
        self.time
    }

    /// Changes the minutes the step takes.
    pub fn set_time(&mut self, time: Fraction)
        ensures
            final(self)@ == (StepView { time: time@, ..old(self)@ }),
    {
        self.time = time;
    }
}

impl Clone for Step {
    fn clone(&self) -> (r: Step)
        ensures
            r@ == self@,
    {
        Step { text: self.text.clone(), time: self.time }
    }
}

/// The mathematical value of a [`RawFood`].
pub struct RawFoodView {
    pub name: IStringView,
    pub serving_size: AmountView,
    pub nutrition: Nutrition,
}

/// A food that needs no preparation: a single ingredient.
#[derive(Debug, PartialEq, Eq)]
pub struct RawFood {
    name: IString,
    serving_size: Amount,
    nutrition: Nutrition,
}

impl View for RawFood {
    type V = RawFoodView;

    closed spec fn view(&self) -> RawFoodView {
        RawFoodView {
            name: self.name@,
            serving_size: self.serving_size@,
            nutrition: self.nutrition,
        }
    }
}

impl RawFood {
    /// A raw food from its parts.
    pub fn new(name: IString, serving_size: Amount, nutrition: Nutrition) -> (r: RawFood)
        ensures
            r@ == (RawFoodView { name: name@, serving_size: serving_size@, nutrition }),
    {
        RawFood { name, serving_size, nutrition }
    }

    /// The name of the food.
    pub fn get_name(&self) -> (r: &IString)
        ensures
            r@ == self@.name,
    {
        &self.name
    }

    /// The name of the food, to add translations to.
    pub fn get_mut_name(&mut self) -> (r: &mut IString)
        ensures
            r@ == old(self)@.name,
            final(self)@ == (RawFoodView { name: final(r)@, ..old(self)@ }),
    {
        &mut self.name
    }

    /// The size of a serving.
    pub fn get_serving_size(&self) -> (r: Amount)
        ensures
            r@ == self@.serving_size,
    {
        self.serving_size
    }

    /// The nutritional value of a serving.
    pub fn get_nutrition(&self) -> (r: &Nutrition)
        ensures
            *r == self@.nutrition,
    {
        &self.nutrition
    }
}

impl Clone for RawFood {
    fn clone(&self) -> (r: RawFood)
        ensures
            r@ == self@,
    {
        RawFood {
            name: self.name.clone(),
            serving_size: self.serving_size,
            nutrition: self.nutrition.clone(),
        }
    }
}

/// The mathematical value of a [`Recipe`].
pub struct RecipeView {
    pub name: IStringView,
    pub serving_size: AmountView,
    pub servings: Quotient,
    pub foods: Seq<(FoodView, AmountView)>,
    pub steps: Seq<StepView>,
    pub time: Quotient,
    pub nutrition: Nutrition,
}

/// The mathematical value of a [`Food`].
pub enum FoodView {
    Recipe(RecipeView),
    RawFood(RawFoodView),
}

/// A food made from other foods by following steps.
#[derive(Debug, PartialEq, Eq)]
pub struct Recipe {
    name: IString,
    serving_size: Amount,
    servings: Fraction,
    foods: Vec<(Food, Amount)>,
    steps: Vec<Step>,
    time: Fraction,
    nutrition: Nutrition,
}

/// Something to eat: a recipe, or a raw food that recipes are made of.
#[derive(Debug, PartialEq, Eq)]
pub enum Food {
    Recipe(Recipe),
    RawFood(RawFood),
}

impl View for Recipe {
    type V = RecipeView;

    closed spec fn view(&self) -> RecipeView
        decreases self,
    {
        RecipeView {
            name: self.name@,
            serving_size: self.serving_size@,
            servings: self.servings@,
            foods: ingredients_view(self.foods@),
            steps: steps_view(self.steps@),
            time: self.time@,
            nutrition: self.nutrition,
        }
    }
}

impl View for Food {
    type V = FoodView;

    closed spec fn view(&self) -> FoodView
        decreases self,
    {
        match self {
            Food::Recipe(recipe) => FoodView::Recipe(recipe.view()),
            Food::RawFood(raw) => FoodView::RawFood(raw@),
        }
    }
}

/// The values of the foods of a recipe with their amounts, in order.
pub open spec fn ingredients_view(foods: Seq<(Food, Amount)>) -> Seq<(FoodView, AmountView)>
    decreases foods,
{
    Seq::new(
        foods.len(),
        |i: int|
            if 0 <= i < foods.len() {
                (foods[i].0@, foods[i].1@)
            } else {
                arbitrary()
            },
    )
}

/// The values of the steps of a recipe, in order.
pub open spec fn steps_view(steps: Seq<Step>) -> Seq<StepView> {
    Seq::new(steps.len(), |i: int| steps[i]@)
}

impl FoodView {
    /// The name of the food.
    pub open spec fn name(self) -> IStringView {
        match self {
            FoodView::Recipe(recipe) => recipe.name,
            FoodView::RawFood(raw) => raw.name,
        }
    }

    /// The nutritional value of the food.
    pub open spec fn nutrition(self) -> Nutrition {
        match self {
            FoodView::Recipe(recipe) => recipe.nutrition,
            FoodView::RawFood(raw) => raw.nutrition,
        }
    }

    /// The minutes it takes to prepare the food: none for a raw food.
    pub open spec fn time(self) -> Quotient {
        match self {
            FoodView::Recipe(recipe) => recipe.time,
            FoodView::RawFood(_) => Quotient { numer: 0, denom: 1 },
        }
    }

    /// The whole seconds it takes to prepare the food: the minutes times
    /// sixty, with any fraction of a second cut off.
    pub open spec fn duration_seconds(self) -> int {
        self.time().times(Quotient { numer: SECONDS_PER_MINUTE as int, denom: 1 }).truncated()
    }
}

/// A preparation time that is not negative gives a duration that is not
/// negative: the seconds rounded down.
pub proof fn lemma_duration_rounds_down(food: FoodView)
    requires
        food.time().numer >= 0,
        food.time().denom > 0,
    ensures
        food.duration_seconds() == (food.time().numer * 60) / food.time().denom,
        food.duration_seconds() >= 0,
{
    lemma_truncated_bounds(food.time().times(Quotient { numer: 60, denom: 1 }));
}

/// A preparation time of whole minutes gives sixty seconds for each minute.
pub proof fn lemma_whole_minutes(food: FoodView)
    requires
        food.time().denom == 1,
    ensures
        food.duration_seconds() == food.time().numer * 60,
{
    let seconds = food.time().numer * 60;
    assert(seconds / 1 == seconds && (-seconds) / 1 == -seconds) by (nonlinear_arith);
}

impl Food {
    /// The food that is the raw food `food`.
    pub fn new_from_raw_food(food: RawFood) -> (r: Food)
        ensures
            r@ == FoodView::RawFood(food@),
    {
        Food::RawFood(food)
    }

    /// The food that is the recipe `food`.
    pub fn new_from_recipe(food: Recipe) -> (r: Food)
        ensures
            r@ == FoodView::Recipe(food@),
    {
        Food::Recipe(food)
    }

    /// The name of the food.
    pub fn get_name(&self) -> (r: &IString)
        ensures
            r@ == self@.name(),
    {
        match self {
            Food::RawFood(x) => &x.name,
            Food::Recipe(x) => &x.name,
        }
    }

    /// The nutritional value of the food.
    pub fn get_nutrition(&self) -> (r: &Nutrition)
        ensures
            *r == self@.nutrition(),
    {
        match self {
            Food::RawFood(x) => &x.nutrition,
            Food::Recipe(x) => &x.nutrition,
        }
    }

    /// The foods this food is made of. No food is taken apart: the list is
    /// empty.
    pub fn decompose(&self) -> (r: Vec<Food>)
        ensures
            r@ == Seq::<Food>::empty(),
    {
        Vec::new()
    }

    /// The minutes it takes to prepare the food, as a fraction. A raw food
    /// takes none.
    pub fn get_time(&self) -> (r: Fraction)
        ensures
            r@ == self@.time(),
    {
        match self {
            Food::RawFood(_) => Fraction::from_integer(0),
            Food::Recipe(x) => x.get_time(),
        }
    }

    /// The time it takes to prepare the food, in whole seconds. A fraction
    /// of a second is cut off, never rounded up.
    pub fn get_duration(&self) -> (r: Duration)
        ensures
            r@ == self@.duration_seconds(),
            self@.time().numer >= 0 ==> r@ >= 0,
    {
        let time = self.get_time();
        let per_minute = Fraction::from_integer(SECONDS_PER_MINUTE);
        let (numer, denom) = ratio_mul(
            time.numer() as i64,
            time.denom() as i64,
            per_minute.numer() as i64,
            per_minute.denom() as i64,
        );
        proof {
            let product = time@.times(per_minute@);
            lemma_lowest_terms_same_value(product);
            lemma_lowest_terms_same_truncation(product);
            lemma_truncated_bounds(product);
        }
        let seconds = ratio_to_integer(numer, denom);
        Duration::try_seconds(seconds).unwrap()
    }
}

impl Recipe {
    /// A recipe from its parts: its name, the size of a serving, how many
    /// servings it makes, the foods that go into it with their amounts, its
    /// steps in order, the minutes it takes, and the nutritional value of a
    /// serving.
    pub fn new(
        name: IString,
        serving_size: Amount,
        servings: Fraction,
        foods: Vec<(Food, Amount)>,
        steps: Vec<Step>,
        time: Fraction,
        nutrition: Nutrition,
    ) -> (r: Recipe)
        ensures
            r@ == (RecipeView {
                name: name@,
                serving_size: serving_size@,
                servings: servings@,
                foods: ingredients_view(foods@),
                steps: steps_view(steps@),
                time: time@,
                nutrition,
            }),
    {
        Recipe { name, serving_size, servings, foods, steps, time, nutrition }
    }

    /// The name of the recipe.
    pub fn get_name(&self) -> (r: &IString)
        ensures
            r@ == self@.name,
    {
        &self.name
    }

    /// The size of a serving.
    pub fn get_serving_size(&self) -> (r: Amount)
        ensures
            r@ == self@.serving_size,
    {
        self.serving_size
    }

    /// The number of servings the recipe makes.
    pub fn get_servings(&self) -> (r: Fraction)
        ensures
            r@ == self@.servings,
    {
        self.servings
    }

    /// The foods that go into the recipe, with their amounts.
    pub fn get_foods(&self) -> (r: &Vec<(Food, Amount)>)
        ensures
            ingredients_view(r@) == self@.foods,
    {
        &self.foods
    }

    /// The steps of the recipe, in order.
    pub fn get_steps(&self) -> (r: &Vec<Step>)
        ensures
            steps_view(r@) == self@.steps,
    {
        &self.steps
    }

    /// The nutritional value of a serving.
    pub fn get_nutrition(&self) -> (r: &Nutrition)
        ensures
            *r == self@.nutrition,
    {
        &self.nutrition
    }

    /// The minutes it takes to make the recipe, as a fraction.
    pub fn get_time(&self) -> (r: Fraction)
        ensures
            r@ == self@.time,
    {
        self.time
    }
}

/// A copy of the foods of a recipe with their amounts.
pub(crate) fn clone_ingredients(foods: &Vec<(Food, Amount)>) -> (r: Vec<(Food, Amount)>)
    ensures
        ingredients_view(r@) == ingredients_view(foods@),
    decreases foods,
{
    let mut copies: Vec<(Food, Amount)> = Vec::new();
    let mut i: usize = 0;
    while i < foods.len()
        invariant
            i <= foods.len(),
            copies@.len() == i,
            forall|j: int|
                0 <= j < i ==> (#[trigger] copies@[j]).0@ == foods@[j].0@ && copies@[j].1
                    == foods@[j].1,
        decreases foods.len() - i,
    {
        let food = foods[i].0.clone();
        copies.push((food, foods[i].1));
        i += 1;
    }
    assert(ingredients_view(copies@) =~= ingredients_view(foods@));
    copies
}

/// A copy of the steps of a recipe.
pub(crate) fn clone_steps(steps: &Vec<Step>) -> (r: Vec<Step>)
    ensures
        steps_view(r@) == steps_view(steps@),
{
    let mut copies: Vec<Step> = Vec::new();
    let mut i: usize = 0;
    while i < steps.len()
        invariant
            i <= steps.len(),
            copies@.len() == i,
            forall|j: int| 0 <= j < i ==> (#[trigger] copies@[j])@ == steps@[j]@,
        decreases steps.len() - i,
    {
        copies.push(steps[i].clone());
        i += 1;
    }
    assert(steps_view(copies@) =~= steps_view(steps@));
    copies
}

impl Clone for Recipe {
    fn clone(&self) -> (r: Recipe)
        ensures
            r@ == self@,
        decreases self,
    {
        Recipe {
            name: self.name.clone(),
            serving_size: self.serving_size,
            servings: self.servings,
            foods: clone_ingredients(&self.foods),
            steps: clone_steps(&self.steps),
            time: self.time,
            nutrition: self.nutrition.clone(),
        }
    }
}

impl Clone for Food {
    fn clone(&self) -> (r: Food)
        ensures
            r@ == self@,
        decreases self,
    {
        match self {
            Food::Recipe(recipe) => Food::Recipe(recipe.clone()),
            Food::RawFood(raw) => Food::RawFood(raw.clone()),
        }
    }
}

} // verus!
