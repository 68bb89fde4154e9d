//! Recipes in the export format of the Cocktailor app.
use vstd::prelude::*;
use crate::cocktail::{holds_text, Cocktail};

verus! {

/// One recipe of a Cocktailor export.
#[derive(Debug)]
pub struct Cocktailor {
    pub name: String,
    pub glass: String,
    pub category: String,
    pub ingredients: Vec<Ingredient>,
    pub garnish: String,
    pub preparation: String,
}

/// One ingredient of a Cocktailor recipe: `amount` times the `unit`.
#[derive(Debug)]
pub struct Ingredient {
    pub unit: String,
    pub amount: u8,
    pub ingredient: String,
}

/// A Cocktailor export: a list of recipes.
#[derive(Debug)]
pub struct CocktailorDB {
    pub cocktails: Vec<Cocktailor>,
}

/// Whether `c` is the recipe `t` in which one unit of the k-th ingredient
/// is `unit_ml[k]` ml.
pub open spec fn is_cocktailor_recipe(t: Cocktailor, unit_ml: Seq<u8>, c: Cocktail) -> bool {
    &&& c.name@ == t.name@
    &&& holds_text(c.glass, t.glass@)
    &&& holds_text(c.category, t.category@)
    &&& holds_text(c.garnish, t.garnish@)
    &&& c.shaken_not_stirred is None
    &&& holds_text(c.preparation_instructions, t.preparation@)
    &&& c.coulour is None
    &&& c.ingredients@.len() == t.ingredients@.len()
    &&& forall|k: int|
        0 <= k < t.ingredients@.len() ==> {
            &&& (#[trigger] c.ingredients@[k]).amount == t.ingredients@[k].amount * unit_ml[k]
            &&& c.ingredients@[k].name@ == t.ingredients@[k].ingredient@
            &&& c.ingredients@[k].coulour is None
        }
}

impl Cocktailor {
    /// The recipe, given the size in ml of one unit of each ingredient, in
    /// order.  Each amount in ml must fit in a `u8`.
    pub fn to_cocktail(&self, unit_ml: &[u8]) -> (r: Cocktail)
        requires
            unit_ml@.len() == self.ingredients@.len(),
            forall|k: int|
                0 <= k < unit_ml@.len() ==> self.ingredients@[k].amount * #[trigger] unit_ml@[k]
                    <= 255,
        ensures
            is_cocktailor_recipe(*self, unit_ml@, r),
    {
        let mut ingredients: Vec<crate::cocktail::Ingredient> = Vec::new();
        let mut k: usize = 0;
        while k < self.ingredients.len()
            invariant
                k <= self.ingredients@.len(),
                unit_ml@.len() == self.ingredients@.len(),
                forall|j: int|
                    0 <= j < unit_ml@.len() ==> self.ingredients@[j].amount * #[trigger] unit_ml@[j]
                        <= 255,
                ingredients@.len() == k,
                forall|j: int|
                    0 <= j < k ==> {
                        &&& (#[trigger] ingredients@[j]).amount == self.ingredients@[j].amount
                            * unit_ml@[j]
                        &&& ingredients@[j].name@ == self.ingredients@[j].ingredient@
                        &&& ingredients@[j].coulour is None
                    },
            decreases self.ingredients@.len() - k,
        {
            let item = &self.ingredients[k];
            assert(item.amount * unit_ml@[k as int] <= 255);
            let amount = item.amount * unit_ml[k];
            ingredients.push(
                crate::cocktail::Ingredient {
                    amount,
                    name: item.ingredient.clone(),
                    coulour: None,
                },
            );
            k = k + 1;
        }
        Cocktail {
            name: self.name.clone(),
            ingredients,
            glass: Some(self.glass.clone()),
            category: Some(self.category.clone()),
            garnish: Some(self.garnish.clone()),
            shaken_not_stirred: None,
            preparation_instructions: Some(self.preparation.clone()),
            coulour: None,
        }
    }
}

} // verus!
