use cocktail_bot_hal::cocktail::{parse_measure, unit_factor, Cocktail, MeasureParts};
use cocktail_bot_hal::cocktailor::{Cocktailor, Ingredient as CocktailorIngredient};
use cocktail_bot_hal::thecocktaildb::ThecocktaildbDrink;

fn parts(m: &MeasureParts) -> (Option<&str>, Option<&str>, Option<&str>, Option<&str>) {
    (
        m.whole.as_deref(),
        m.numerator.as_deref(),
        m.denominator.as_deref(),
        m.unit.as_deref(),
    )
}

/// The captures of the measure grammar as the regex crate computes them.
fn regex_parts(measure: &str) -> (Option<String>, Option<String>, Option<String>, Option<String>) {
    let expr = regex::Regex::new(
        r"^\s*(?:(?P<whole>\d+(?:\.\d+)?)\s+)?(?:(?P<numerator>\d+)/(?P<denominator>\d+))?\s*(?P<unit>[[:alpha:]]+(?:\s+[[:alpha:]]+)?)?",
    )
    .unwrap();
    let c = expr.captures(measure).unwrap();
    let get = |n: &str| c.name(n).map(|m| m.as_str().to_string());
    (get("whole"), get("numerator"), get("denominator"), get("unit"))
}

#[test]
fn measure_parts_of_recipe_measures() {
    assert_eq!(parts(&parse_measure("3 oz")), (Some("3"), None, None, Some("oz")));
    assert_eq!(parts(&parse_measure("1 1/2 oz")), (Some("1"), Some("1"), Some("2"), Some("oz")));
    assert_eq!(parts(&parse_measure("1/2 oz")), (None, Some("1"), Some("2"), Some("oz")));
    assert_eq!(parts(&parse_measure("1       oz")), (Some("1"), None, None, Some("oz")));
    assert_eq!(parts(&parse_measure("30/60 oz")), (None, Some("30"), Some("60"), Some("oz")));
    assert_eq!(parts(&parse_measure("oz")), (None, None, None, Some("oz")));
    assert_eq!(parts(&parse_measure("7 fl oz")), (Some("7"), None, None, Some("fl oz")));
    assert_eq!(parts(&parse_measure("7/2 oz")), (None, Some("7"), Some("2"), Some("oz")));
    assert_eq!(parts(&parse_measure("3.5 oz")), (Some("3.5"), None, None, Some("oz")));
    assert_eq!(parts(&parse_measure("10.0 X")), (Some("10.0"), None, None, Some("X")));
}

#[test]
fn measure_parts_edge_cases() {
    assert_eq!(parts(&parse_measure("")), (None, None, None, None));
    assert_eq!(parts(&parse_measure("1.5x")), (None, None, None, None));
    assert_eq!(parts(&parse_measure("5oz")), (None, None, None, None));
    assert_eq!(parts(&parse_measure("  2 cl ")), (Some("2"), None, None, Some("cl")));
    assert_eq!(parts(&parse_measure("1/0")), (None, Some("1"), Some("0"), None));
    assert_eq!(parts(&parse_measure("2 juice of lime")), (Some("2"), None, None, Some("juice of")));
    assert_eq!(parts(&parse_measure("1 2/3cups")), (Some("1"), Some("2"), Some("3"), Some("cups")));
    assert_eq!(parts(&parse_measure("1. 5 oz")), (None, None, None, None));
}

#[test]
fn measure_parts_agree_with_the_regex() {
    let cases = [
        "3 oz", "1 1/2 oz", "1/2 oz", "1       oz", "30/60 oz", "oz", "13", "7 fl oz",
        "7/2 oz", "3.5 oz", "100 oz", "10.0 X", "", " ", "1.5x", "5oz", "  2 cl ", "1/0",
        "2 juice of lime", "1 2/3cups", "1. 5 oz", "1 /2 oz", "\t4\u{a0}tsp", "١ oz",
        "٣/٤ cup", "12 3 oz", "1.2.3 oz", "Fl  Oz", "3 Dashes", "2\u{3000}shots x",
        "1/ 2", "/2 oz", "0.25 l", "½ oz", "1 1/2", "4 \t ", "a b c",
    ];
    for m in cases {
        let p = parse_measure(m);
        let expected = regex_parts(m);
        assert_eq!(
            (p.whole.clone(), p.numerator.clone(), p.denominator.clone(), p.unit.clone()),
            expected,
            "measure {:?}",
            m
        );
    }
}

#[test]
fn unit_factors_in_tenths_of_ml() {
    assert_eq!(unit_factor("oz"), Ok(300));
    assert_eq!(unit_factor("fl oz"), Ok(300));
    assert_eq!(unit_factor("OZ"), Ok(300));
    assert_eq!(unit_factor("Fl Oz"), Ok(300));
    assert_eq!(unit_factor("ml"), Ok(10));
    assert_eq!(unit_factor("cl"), Ok(100));
    assert_eq!(unit_factor("dashes"), Ok(10));
    assert_eq!(unit_factor("tsp"), Ok(50));
    assert_eq!(unit_factor("parts"), Ok(400));
    assert_eq!(unit_factor("tbsp"), Ok(150));
    assert_eq!(unit_factor("shot"), Ok(450));
    assert_eq!(unit_factor("can"), Ok(1800));
    assert_eq!(unit_factor("cups"), Ok(2400));
    assert_eq!(unit_factor("pinch"), Ok(3));
    assert_eq!(unit_factor("glasses"), Ok(2500));
    assert_eq!(unit_factor("pint"), Ok(4730));
    assert_eq!(unit_factor("mug"), Ok(3550));
    assert_eq!(unit_factor("Liters"), Ok(10000));
    assert_eq!(unit_factor("X"), Err("x".to_string()));
    assert_eq!(unit_factor("fl  oz"), Err("fl  oz".to_string()));
    assert_eq!(unit_factor(""), Err(String::new()));
}

#[test]
fn default_cocktail_is_an_empty_glass() {
    let c = Cocktail::default();
    assert_eq!(c.name, "Empty Glass");
    assert_eq!(c.glass.as_deref(), Some("Any"));
    assert_eq!(c.category.as_deref(), Some("All Day"));
    assert_eq!(c.shaken_not_stirred, None);
    assert!(c.ingredients.is_empty());
    assert_eq!(c.garnish.as_deref(), Some("Slice of thin air"));
    assert_eq!(
        c.preparation_instructions.as_deref(),
        Some("Pour nothing into a glass of your choice.")
    );
    assert!(c.coulour.is_none());
}

#[test]
fn drink_recipe_takes_amounts_in_pair_order() {
    let mut d = drink();
    d.strIngredient1 = Some("Vodka".to_string());
    d.strMeasure1 = Some("1 oz".to_string());
    d.strIngredient4 = Some("Orange juice".to_string());
    d.strMeasure4 = Some("2 oz".to_string());
    d.strCategory = Some("Cocktail".to_string());
    let c = d.to_cocktail(&[30, 60]);
    assert_eq!(c.name, "Screwdriver");
    assert_eq!(c.glass.as_deref(), Some("Highball"));
    assert_eq!(c.category.as_deref(), Some("Cocktail"));
    assert_eq!(c.garnish.as_deref(), Some(""));
    assert_eq!(c.preparation_instructions.as_deref(), Some("Pour."));
    assert_eq!(c.shaken_not_stirred, None);
    assert_eq!(c.ingredients.len(), 2);
    assert_eq!((c.ingredients[0].amount, c.ingredients[0].name.as_str()), (30, "Vodka"));
    assert_eq!((c.ingredients[1].amount, c.ingredients[1].name.as_str()), (60, "Orange juice"));
}

#[test]
fn drink_without_category_stays_all_day() {
    let c = drink().to_cocktail(&[]);
    assert_eq!(c.category.as_deref(), Some("All Day"));
    assert!(c.ingredients.is_empty());
}

#[test]
fn cocktailor_recipe_multiplies_units() {
    let t = Cocktailor {
        name: "Screwdriver".to_string(),
        glass: "Highball".to_string(),
        category: "All Day".to_string(),
        ingredients: vec![
            CocktailorIngredient { unit: "oz".to_string(), amount: 2, ingredient: "Vodka".to_string() },
            CocktailorIngredient { unit: "cl".to_string(), amount: 3, ingredient: "Juice".to_string() },
        ],
        garnish: "Orange".to_string(),
        preparation: "Stir.".to_string(),
    };
    let c = t.to_cocktail(&[30, 10]);
    assert_eq!(c.name, "Screwdriver");
    assert_eq!(c.glass.as_deref(), Some("Highball"));
    assert_eq!(c.garnish.as_deref(), Some("Orange"));
    assert_eq!(c.preparation_instructions.as_deref(), Some("Stir."));
    assert_eq!((c.ingredients[0].amount, c.ingredients[0].name.as_str()), (60, "Vodka"));
    assert_eq!((c.ingredients[1].amount, c.ingredients[1].name.as_str()), (30, "Juice"));
}

fn drink() -> ThecocktaildbDrink {
    ThecocktaildbDrink {
        idDrink: "1".to_string(),
        strDrink: "Screwdriver".to_string(),
        strDrinkAlternate: None,
        strTags: None,
        strVideo: None,
        strCategory: None,
        strIBA: None,
        strAlcoholic: "Alcoholic".to_string(),
        strGlass: "Highball".to_string(),
        strInstructions: "Pour.".to_string(),
        strInstructionsES: None,
        strInstructionsDE: None,
        strInstructionsFR: None,
        strInstructionsIT: None,
        strInstructionsZHHANS: None,
        strInstructionsZHHANT: None,
        strDrinkThumb: None,
        strIngredient1: None,
        strIngredient2: None,
        strIngredient3: None,
        strIngredient4: None,
        strIngredient5: None,
        strIngredient6: None,
        strIngredient7: None,
        strIngredient8: None,
        strIngredient9: None,
        strIngredient10: None,
        strIngredient11: None,
        strIngredient12: None,
        strIngredient13: None,
        strIngredient14: None,
        strIngredient15: None,
        strMeasure1: None,
        strMeasure2: None,
        strMeasure3: None,
        strMeasure4: None,
        strMeasure5: None,
        strMeasure6: None,
        strMeasure7: None,
        strMeasure8: None,
        strMeasure9: None,
        strMeasure10: None,
        strMeasure11: None,
        strMeasure12: None,
        strMeasure13: None,
        strMeasure14: None,
        strImageSource: None,
        strMeasure15: None,
        strImageAttribution: None,
        strCreativeCommonsConfirmed: None,
        dateModified: "-".to_string(),
    }
}
