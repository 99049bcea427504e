use time_for_food::food::{
    Amount, Food, Fraction, IString, Nutrition, RawFood, Recipe, RecipeBuilder, Step, Unit,
};

fn fraction(numerator: i32, denominator: i32) -> Fraction {
    Fraction::new(numerator, denominator).unwrap()
}

fn salt() -> Food {
    Food::new_from_raw_food(RawFood::new(
        IString::new("salt"),
        Amount::new(Unit, fraction(1, 1)),
        Nutrition,
    ))
}

#[test]
fn build_fails_without_serving_size() {
    let mut builder = RecipeBuilder::new("soup");
    assert_eq!(builder.build_recipe().err(), Some("Serving Size not set"));
    builder.set_servings(fraction(4, 1)).set_time(fraction(30, 1)).set_nutrition(Nutrition);
    assert_eq!(builder.build_recipe().err(), Some("Serving Size not set"));
}

#[test]
fn build_fails_without_servings() {
    let mut builder = RecipeBuilder::new("soup");
    builder.set_serving_size(Unit, fraction(1, 2));
    assert_eq!(builder.build_recipe().err(), Some("Servings not set"));
    builder.set_time(fraction(30, 1)).set_nutrition(Nutrition);
    assert_eq!(builder.build_recipe().err(), Some("Servings not set"));
}

#[test]
fn build_fails_without_time() {
    let mut builder = RecipeBuilder::new("soup");
    builder.set_serving_size(Unit, fraction(1, 2)).set_servings(fraction(4, 1));
    assert_eq!(builder.build_recipe().err(), Some("Time not set"));
    builder.set_nutrition(Nutrition);
    assert_eq!(builder.build_recipe().err(), Some("Time not set"));
}

#[test]
fn build_fails_without_nutrition() {
    let mut builder = RecipeBuilder::new("soup");
    builder
        .set_serving_size(Unit, fraction(1, 2))
        .set_servings(fraction(4, 1))
        .set_time(fraction(30, 1));
    assert_eq!(builder.build_recipe().err(), Some("Nutrition not set"));
}

#[test]
fn build_gives_the_recipe_made_of_the_parts() {
    let mut boil = Step::new("boil", fraction(10, 1));
    boil.get_mut_text().set_value_for("en_US", "Boil it");
    let mut builder = RecipeBuilder::new("soup");
    builder
        .add_name("en_US", "Soup")
        .add_name("de_DE", "Suppe")
        .set_serving_size(Unit, fraction(1, 2))
        .set_servings(fraction(4, 1))
        .add_food(salt(), Unit, fraction(1, 100))
        .add_step(boil.clone())
        .add_step(Step::new("serve", fraction(1, 2)))
        .set_time(fraction(21, 2))
        .set_nutrition(Nutrition);
    let built = builder.build_recipe().unwrap();

    let mut name = IString::new("soup");
    name.set_value_for("en_US", "Soup");
    name.set_value_for("de_DE", "Suppe");
    let expected = Recipe::new(
        name,
        Amount::new(Unit, fraction(1, 2)),
        fraction(4, 1),
        vec![(salt(), Amount::new(Unit, fraction(1, 100)))],
        vec![boil, Step::new("serve", fraction(1, 2))],
        fraction(21, 2),
        Nutrition,
    );
    assert_eq!(built, expected);
    assert_eq!(built.get_time(), fraction(21, 2));
    assert_eq!(Food::new_from_recipe(built).get_duration().num_seconds(), 630);
}

#[test]
fn builder_can_build_again() {
    let mut builder = RecipeBuilder::new("soup");
    builder
        .set_serving_size(Unit, fraction(1, 2))
        .set_servings(fraction(4, 1))
        .set_time(fraction(30, 1))
        .set_nutrition(Nutrition);
    let first = builder.build_recipe().unwrap();
    let second = builder.build_recipe().unwrap();
    assert_eq!(first, second);
    builder.set_time(fraction(31, 1));
    let third = builder.build_recipe().unwrap();
    assert_ne!(first, third);
    assert_eq!(first.get_time(), fraction(30, 1));
    assert_eq!(third.get_time(), fraction(31, 1));
}

#[test]
fn later_settings_overwrite_earlier_ones() {
    let mut builder = RecipeBuilder::new("soup");
    builder
        .add_name("en_US", "Soup")
        .add_name("en_US", "Broth")
        .set_serving_size(Unit, fraction(1, 2))
        .set_serving_size(Unit, fraction(3, 4))
        .set_servings(fraction(4, 1))
        .set_servings(fraction(6, 1))
        .set_time(fraction(30, 1))
        .set_time(fraction(40, 1))
        .set_nutrition(Nutrition)
        .set_nutrition(Nutrition);
    let built = builder.build_recipe().unwrap();
    let mut name = IString::new("soup");
    name.set_value_for("en_US", "Broth");
    let expected = Recipe::new(
        name,
        Amount::new(Unit, fraction(3, 4)),
        fraction(6, 1),
        Vec::new(),
        Vec::new(),
        fraction(40, 1),
        Nutrition,
    );
    assert_eq!(built, expected);
}

#[test]
fn foods_and_steps_keep_their_order() {
    let mut builder = RecipeBuilder::new("soup");
    builder
        .set_serving_size(Unit, fraction(1, 1))
        .set_servings(fraction(1, 1))
        .set_time(fraction(1, 1))
        .set_nutrition(Nutrition)
        .add_step(Step::new("first", fraction(1, 1)))
        .add_step(Step::new("second", fraction(2, 1)));
    let in_order = builder.build_recipe().unwrap();
    let expected = Recipe::new(
        IString::new("soup"),
        Amount::new(Unit, fraction(1, 1)),
        fraction(1, 1),
        Vec::new(),
        vec![Step::new("first", fraction(1, 1)), Step::new("second", fraction(2, 1))],
        fraction(1, 1),
        Nutrition,
    );
    let reversed = Recipe::new(
        IString::new("soup"),
        Amount::new(Unit, fraction(1, 1)),
        fraction(1, 1),
        Vec::new(),
        vec![Step::new("second", fraction(2, 1)), Step::new("first", fraction(1, 1))],
        fraction(1, 1),
        Nutrition,
    );
    assert_eq!(in_order, expected);
    assert_ne!(in_order, reversed);
}
