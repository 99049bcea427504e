//! Putting a recipe together part by part.
use crate::food::fraction::{Fraction, Quotient};
use crate::food::istring::{IString, IStringView};
use crate::food::{
    clone_ingredients, clone_steps, ingredients_view, steps_view, Amount, AmountView, Food,
    FoodView, Nutrition, Recipe, RecipeView, Step, StepView, Unit,
};
use vstd::prelude::*;

verus! {

/// The mathematical value of a [`RecipeBuilder`]: the parts given so far.
pub struct RecipeBuilderView {
    pub name: IStringView,
    pub serving_size: Option<AmountView>,
    pub servings: Option<Quotient>,
    pub foods: Seq<(FoodView, AmountView)>,
    pub steps: Seq<StepView>,
    pub time: Option<Quotient>,
    pub nutrition: Option<Nutrition>,
}

impl RecipeBuilderView {
    /// What building gives: the recipe made of the parts, or the complaint
    /// about the first part that is missing, in the order serving size,
    /// servings, time, nutrition.
    pub open spec fn build(self) -> Result<RecipeView, Seq<char>> {
        if self.serving_size is None {
            Err("Serving Size not set"@)
        } else if self.servings is None {
            Err("Servings not set"@)
        } else if self.time is None {
            Err("Time not set"@)
        } else if self.nutrition is None {
            Err("Nutrition not set"@)
        } else {
            Ok(
                RecipeView {
                    name: self.name,
                    serving_size: self.serving_size->0,
                    servings: self.servings->0,
                    foods: self.foods,
                    steps: self.steps,
                    time: self.time->0,
                    nutrition: self.nutrition->0,
                },
            )
        }
    }
}

/// Collects the parts of a recipe one at a time and builds the recipe once
/// they are all there.
pub struct RecipeBuilder {
    name: IString,
    serving_size: Option<Amount>,
    servings: Option<Fraction>,
    foods: Vec<(Food, Amount)>,
    steps: Vec<Step>,
    time: Option<Fraction>,
    nutrition: Option<Nutrition>,
}

impl View for RecipeBuilder {
    type V = RecipeBuilderView;

    closed spec fn view(&self) -> RecipeBuilderView {
        RecipeBuilderView {
            name: self.name@,
            serving_size: match self.serving_size {
                Some(amount) => Some(amount@),
                None => None,
            },
            servings: match self.servings {
                Some(servings) => Some(servings@),
                None => None,
            },
            foods: ingredients_view(self.foods@),
            steps: steps_view(self.steps@),
            time: match self.time {
                Some(time) => Some(time@),
                None => None,
            },
            nutrition: self.nutrition,
        }
    }
}

impl RecipeBuilder {
    /// A builder for a recipe whose name has the given short code. No other
    /// part is set, and there are no foods and no steps.
    pub fn new(short_code: &str) -> (r: RecipeBuilder)
        ensures
            r@ == (RecipeBuilderView {
                name: IStringView {
                    short_code: short_code@,
                    names: Map::empty(),
                    default: Seq::empty(),
                },
                serving_size: None,
                servings: None,
                foods: Seq::empty(),
                steps: Seq::empty(),
                time: None,
                nutrition: None,
            }),
    {
        let r = RecipeBuilder {
            name: IString::new(short_code),
            serving_size: None,
            servings: None,
            foods: Vec::new(),
            steps: Vec::new(),
            time: None,
            nutrition: None,
        };
        assert(r@.foods =~= Seq::empty());
        assert(r@.steps =~= Seq::empty());
        r
    }

    /// Gives the recipe the name `name` in language `lang_code`, in place of
    /// the name it had in that language, if any.
    pub fn add_name(&mut self, lang_code: &str, name: &str) -> (r: &mut Self)
        ensures
            r@ == (RecipeBuilderView {
                name: IStringView {
                    names: old(self)@.name.names.insert(lang_code@, name@),
                    ..old(self)@.name
                },
                ..old(self)@
            }),
            *final(self) == *final(r),
    {
        self.name.set_value_for(lang_code, name);
        self
    }

    /// Sets the size of a serving to `amount` of `unit`.
    pub fn set_serving_size(&mut self, unit: Unit, amount: Fraction) -> (r: &mut Self)
        ensures
            r@ == (RecipeBuilderView {
                serving_size: Some(AmountView { unit, amount: amount@ }),
                ..old(self)@
            }),
            *final(self) == *final(r),
    {
        self.serving_size = Some(Amount::new(unit, amount));
        self
    }

    /// Sets the number of servings the recipe makes.
    pub fn set_servings(&mut self, servings: Fraction) -> (r: &mut Self)
        ensures
            r@ == (RecipeBuilderView { servings: Some(servings@), ..old(self)@ }),
            *final(self) == *final(r),
    {
        self.servings = Some(servings);
        self
    }

    /// Adds `amount` of `unit` of `food` at the end of the list of foods.
    pub fn add_food(&mut self, food: Food, unit: Unit, amount: Fraction) -> (r: &mut Self)
        ensures
            r@ == (RecipeBuilderView {
                foods: old(self)@.foods.push((food@, AmountView { unit, amount: amount@ })),
                ..old(self)@
            }),
            *final(self) == *final(r),
    {
        let new_entry = (food, Amount::new(unit, amount));
        self.foods.push(new_entry);
        assert(ingredients_view(self.foods@) =~= ingredients_view(old(self).foods@).push(
            (food@, AmountView { unit, amount: amount@ }),
        ));
        self
    }

    /// Adds `step` at the end of the list of steps.
    pub fn add_step(&mut self, step: Step) -> (r: &mut Self)
        ensures
            r@ == (RecipeBuilderView { steps: old(self)@.steps.push(step@), ..old(self)@ }),
            *final(self) == *final(r),
    {
        self.steps.push(step);
        assert(steps_view(self.steps@) =~= steps_view(old(self).steps@).push(step@));
        self
    }

    /// Sets the minutes the recipe takes.
    pub fn set_time(&mut self, time: Fraction) -> (r: &mut Self)
        ensures
            r@ == (RecipeBuilderView { time: Some(time@), ..old(self)@ }),
            *final(self) == *final(r),
    {
        self.time = Some(time);
        self
    }

    /// Sets the nutritional value of a serving.
    pub fn set_nutrition(&mut self, nutrition: Nutrition) -> (r: &mut Self)
        ensures
            r@ == (RecipeBuilderView { nutrition: Some(nutrition), ..old(self)@ }),
            *final(self) == *final(r),
    {
        self.nutrition = Some(nutrition);
        self
    }

    /// Builds the recipe from the parts given so far. The builder stays as
    /// it is and can build again.
    ///
    /// Fails when the serving size, the servings, the time or the nutrition
    /// is not set, with a message that names the first of them.
    pub fn build_recipe(&self) -> (r: Result<Recipe, &str>)
        ensures
            match r {
                Ok(recipe) => self@.build() == Ok::<RecipeView, Seq<char>>(recipe@),
                Err(message) => self@.build() == Err::<RecipeView, Seq<char>>(message@),
            },
    {
        let serving_size: Amount;
        let servings: Fraction;
        let time: Fraction;
        let nutrition: Nutrition;
        if let Some(x) = self.serving_size {
            serving_size = x;
        } else {
            return Err("Serving Size not set");
        }
        if let Some(x) = self.servings {
            servings = x;
        } else {
            return Err("Servings not set");
        }
        if let Some(x) = self.time {
            time = x;
        } else {
            return Err("Time not set");
        }
        if let Some(x) = &self.nutrition {
            nutrition = x.clone();
        } else {
            return Err("Nutrition not set");
        }
        let name = self.name.clone();
        let foods = clone_ingredients(&self.foods);
        let steps = clone_steps(&self.steps);
        let recipe = Recipe::new(name, serving_size, servings, foods, steps, time, nutrition);
        Ok(recipe)
    }
}

} // verus!
