//! Drinks as thecocktaildb.com describes them.
use vstd::prelude::*;
use crate::cocktail::{holds_text, Cocktail, Ingredient};

verus! {

/// A lookup result of thecocktaildb.com.
#[derive(Debug)]
pub struct Thecocktaildb {
    pub drinks: Vec<ThecocktaildbDrink>,
}

/// One drink record of thecocktaildb.com, with the field names of its JSON.
#[allow(non_snake_case)]
#[derive(Debug)]
pub struct ThecocktaildbDrink {
    pub idDrink: String,
    pub strDrink: String,
    pub strDrinkAlternate: Option<String>,
    pub strTags: Option<String>,
    pub strVideo: Option<String>,
    pub strCategory: Option<String>,
    pub strIBA: Option<String>,
    pub strAlcoholic: String,
    pub strGlass: String,
    pub strInstructions: String,
    pub strInstructionsES: Option<String>,
    pub strInstructionsDE: Option<String>,
    pub strInstructionsFR: Option<String>,
    pub strInstructionsIT: Option<String>,
    pub strInstructionsZHHANS: Option<String>,
    pub strInstructionsZHHANT: Option<String>,
    pub strDrinkThumb: Option<String>,
    pub strIngredient1: Option<String>,
    pub strIngredient2: Option<String>,
    pub strIngredient3: Option<String>,
    pub strIngredient4: Option<String>,
    pub strIngredient5: Option<String>,
    pub strIngredient6: Option<String>,
    pub strIngredient7: Option<String>,
    pub strIngredient8: Option<String>,
    pub strIngredient9: Option<String>,
    pub strIngredient10: Option<String>,
    pub strIngredient11: Option<String>,
    pub strIngredient12: Option<String>,
    pub strIngredient13: Option<String>,
    pub strIngredient14: Option<String>,
    pub strIngredient15: Option<String>,
    pub strMeasure1: Option<String>,
    pub strMeasure2: Option<String>,
    pub strMeasure3: Option<String>,
    pub strMeasure4: Option<String>,
    pub strMeasure5: Option<String>,
    pub strMeasure6: Option<String>,
    pub strMeasure7: Option<String>,
    pub strMeasure8: Option<String>,
    pub strMeasure9: Option<String>,
    pub strMeasure10: Option<String>,
    pub strMeasure11: Option<String>,
    pub strMeasure12: Option<String>,
    pub strMeasure13: Option<String>,
    pub strMeasure14: Option<String>,
    pub strImageSource: Option<String>,
    pub strMeasure15: Option<String>,
    pub strImageAttribution: Option<String>,
    pub strCreativeCommonsConfirmed: Option<String>,
    pub dateModified: String,
}

/// The ingredient and measure slots of a drink, in order.
pub open spec fn ingredient_slots(d: ThecocktaildbDrink) -> Seq<(Option<String>, Option<String>)> {
    seq![
        (d.strIngredient1, d.strMeasure1),
        (d.strIngredient2, d.strMeasure2),
        (d.strIngredient3, d.strMeasure3),
        (d.strIngredient4, d.strMeasure4),
        (d.strIngredient5, d.strMeasure5),
        (d.strIngredient6, d.strMeasure6),
        (d.strIngredient7, d.strMeasure7),
        (d.strIngredient8, d.strMeasure8),
        (d.strIngredient9, d.strMeasure9),
        (d.strIngredient10, d.strMeasure10),
        (d.strIngredient11, d.strMeasure11),
        (d.strIngredient12, d.strMeasure12),
        (d.strIngredient13, d.strMeasure13),
        (d.strIngredient14, d.strMeasure14),
        (d.strIngredient15, d.strMeasure15),
    ]
}

/// The `(ingredient, measure)` pairs of the slots where both are present, in
/// slot order.
pub open spec fn ingredient_pairs_of(slots: Seq<(Option<String>, Option<String>)>) -> Seq<(Seq<char>, Seq<char>)>
    decreases slots.len(),
{
    if slots.len() == 0 {
        Seq::empty()
    } else {
        let rest = ingredient_pairs_of(slots.drop_last());
        match slots.last() {
            (Some(i), Some(m)) => rest.push((i@, m@)),
            _ => rest,
        }
    }
}

pub open spec fn pair_views(v: Seq<(String, String)>) -> Seq<(Seq<char>, Seq<char>)> {
    v.map_values(|p: (String, String)| (p.0@, p.1@))
}

fn push_pair(out: &mut Vec<(String, String)>, ingredient: &Option<String>, measure: &Option<String>)
    ensures
        pair_views(final(out)@) == match (*ingredient, *measure) {
            (Some(i), Some(m)) => pair_views(old(out)@).push((i@, m@)),
            _ => pair_views(old(out)@),
        },
{
    match (ingredient, measure) {
        (Some(i), Some(m)) => {
            let ghost before = out@;
            out.push((i.clone(), m.clone()));
            assert(pair_views(out@) =~= pair_views(before).push((i@, m@)));
        },
        _ => {},
    }
}

impl ThecocktaildbDrink {
    /// The ingredients that a recipe takes from this drink: each
    /// `(strIngredientN, strMeasureN)` where both are present, for N from 1
    /// to 15.
    pub fn ingredient_pairs(&self) -> (r: Vec<(String, String)>)
        ensures
            pair_views(r@) == ingredient_pairs_of(ingredient_slots(*self)),
    {
        let mut out: Vec<(String, String)> = Vec::new();
        let ghost s = ingredient_slots(*self);
        push_pair(&mut out, &self.strIngredient1, &self.strMeasure1);
        assert(s.take(1).drop_last() =~= s.take(0));
        assert(ingredient_pairs_of(s.take(0)) =~= Seq::<(Seq<char>, Seq<char>)>::empty());
        assert(pair_views(out@) == ingredient_pairs_of(s.take(1)));
        push_pair(&mut out, &self.strIngredient2, &self.strMeasure2);
        assert(s.take(2).drop_last() =~= s.take(1));
        assert(pair_views(out@) == ingredient_pairs_of(s.take(2)));
        push_pair(&mut out, &self.strIngredient3, &self.strMeasure3);
        assert(s.take(3).drop_last() =~= s.take(2));
        assert(pair_views(out@) == ingredient_pairs_of(s.take(3)));
        push_pair(&mut out, &self.strIngredient4, &self.strMeasure4);
        assert(s.take(4).drop_last() =~= s.take(3));
        assert(pair_views(out@) == ingredient_pairs_of(s.take(4)));
        push_pair(&mut out, &self.strIngredient5, &self.strMeasure5);
        assert(s.take(5).drop_last() =~= s.take(4));
        assert(pair_views(out@) == ingredient_pairs_of(s.take(5)));
        push_pair(&mut out, &self.strIngredient6, &self.strMeasure6);
        assert(s.take(6).drop_last() =~= s.take(5));
        assert(pair_views(out@) == ingredient_pairs_of(s.take(6)));
        push_pair(&mut out, &self.strIngredient7, &self.strMeasure7);
        assert(s.take(7).drop_last() =~= s.take(6));
        assert(pair_views(out@) == ingredient_pairs_of(s.take(7)));
        push_pair(&mut out, &self.strIngredient8, &self.strMeasure8);
        assert(s.take(8).drop_last() =~= s.take(7));
        assert(pair_views(out@) == ingredient_pairs_of(s.take(8)));
        push_pair(&mut out, &self.strIngredient9, &self.strMeasure9);
        assert(s.take(9).drop_last() =~= s.take(8));
        assert(pair_views(out@) == ingredient_pairs_of(s.take(9)));
        push_pair(&mut out, &self.strIngredient10, &self.strMeasure10);
        assert(s.take(10).drop_last() =~= s.take(9));
        assert(pair_views(out@) == ingredient_pairs_of(s.take(10)));
        push_pair(&mut out, &self.strIngredient11, &self.strMeasure11);
        assert(s.take(11).drop_last() =~= s.take(10));
        assert(pair_views(out@) == ingredient_pairs_of(s.take(11)));
        push_pair(&mut out, &self.strIngredient12, &self.strMeasure12);
        assert(s.take(12).drop_last() =~= s.take(11));
        assert(pair_views(out@) == ingredient_pairs_of(s.take(12)));
        push_pair(&mut out, &self.strIngredient13, &self.strMeasure13);
        assert(s.take(13).drop_last() =~= s.take(12));
        assert(pair_views(out@) == ingredient_pairs_of(s.take(13)));
        push_pair(&mut out, &self.strIngredient14, &self.strMeasure14);
        assert(s.take(14).drop_last() =~= s.take(13));
        assert(pair_views(out@) == ingredient_pairs_of(s.take(14)));
        push_pair(&mut out, &self.strIngredient15, &self.strMeasure15);
        assert(s.take(15).drop_last() =~= s.take(14));
        assert(pair_views(out@) == ingredient_pairs_of(s.take(15)));
        assert(s.take(15) =~= s);
        out
    }
}

/// Whether some number N gives the drink both `strIngredientN` equal to
/// `ingredient` and `strMeasureN` equal to `measure`.
pub open spec fn has_numbered_pair(d: ThecocktaildbDrink, ingredient: Seq<char>, measure: Seq<char>) -> bool {
    ||| (holds_text(d.strIngredient1, ingredient) && holds_text(d.strMeasure1, measure))
    ||| (holds_text(d.strIngredient2, ingredient) && holds_text(d.strMeasure2, measure))
    ||| (holds_text(d.strIngredient3, ingredient) && holds_text(d.strMeasure3, measure))
    ||| (holds_text(d.strIngredient4, ingredient) && holds_text(d.strMeasure4, measure))
    ||| (holds_text(d.strIngredient5, ingredient) && holds_text(d.strMeasure5, measure))
    ||| (holds_text(d.strIngredient6, ingredient) && holds_text(d.strMeasure6, measure))
    ||| (holds_text(d.strIngredient7, ingredient) && holds_text(d.strMeasure7, measure))
    ||| (holds_text(d.strIngredient8, ingredient) && holds_text(d.strMeasure8, measure))
    ||| (holds_text(d.strIngredient9, ingredient) && holds_text(d.strMeasure9, measure))
    ||| (holds_text(d.strIngredient10, ingredient) && holds_text(d.strMeasure10, measure))
    ||| (holds_text(d.strIngredient11, ingredient) && holds_text(d.strMeasure11, measure))
    ||| (holds_text(d.strIngredient12, ingredient) && holds_text(d.strMeasure12, measure))
    ||| (holds_text(d.strIngredient13, ingredient) && holds_text(d.strMeasure13, measure))
    ||| (holds_text(d.strIngredient14, ingredient) && holds_text(d.strMeasure14, measure))
    ||| (holds_text(d.strIngredient15, ingredient) && holds_text(d.strMeasure15, measure))
}

/// Every pair of a sequence of slots comes from one slot where both the
/// ingredient and the measure are present.
proof fn lemma_pairs_come_from_slots(slots: Seq<(Option<String>, Option<String>)>, k: int)
    requires
        0 <= k < ingredient_pairs_of(slots).len(),
    ensures
        exists|j: int|
            0 <= j < slots.len() && holds_text((#[trigger] slots[j]).0, ingredient_pairs_of(slots)[k].0)
                && holds_text(slots[j].1, ingredient_pairs_of(slots)[k].1),
    decreases slots.len(),
{
    let rest = slots.drop_last();
    let pr = ingredient_pairs_of(rest);
    if k < pr.len() {
        lemma_pairs_come_from_slots(rest, k);
        let j = choose|j: int|
            0 <= j < rest.len() && holds_text((#[trigger] rest[j]).0, pr[k].0) && holds_text(
                rest[j].1,
                pr[k].1,
            );
        assert(slots[j] == rest[j]);
    } else {
        let j = slots.len() - 1;
        assert(slots[j] == slots.last());
    }
}

/// Every `(ingredient, measure)` pair of a drink carries one number: its
/// ingredient is some `strIngredientN` and its measure the `strMeasureN` of
/// the same N.
pub proof fn lemma_pair_carries_one_number(d: ThecocktaildbDrink, k: int)
    requires
        0 <= k < ingredient_pairs_of(ingredient_slots(d)).len(),
    ensures
        has_numbered_pair(
            d,
            ingredient_pairs_of(ingredient_slots(d))[k].0,
            ingredient_pairs_of(ingredient_slots(d))[k].1,
        ),
{
    let slots = ingredient_slots(d);
    lemma_pairs_come_from_slots(slots, k);
    let j = choose|j: int|
        0 <= j < slots.len() && holds_text((#[trigger] slots[j]).0, ingredient_pairs_of(slots)[k].0)
            && holds_text(slots[j].1, ingredient_pairs_of(slots)[k].1);
    assert(0 <= j < 15);
}

/// Whether `c` is the recipe of the drink `d` in which the k-th ingredient
/// pair of `d` comes in `amounts[k]` ml.
pub open spec fn is_drink_recipe(d: ThecocktaildbDrink, amounts: Seq<u8>, c: Cocktail) -> bool {
    let pairs = ingredient_pairs_of(ingredient_slots(d));
    &&& c.name@ == d.strDrink@
    &&& holds_text(c.glass, d.strGlass@)
    &&& match d.strCategory {
        Some(cat) => holds_text(c.category, cat@),
        None => holds_text(c.category, "All Day"@),
    }
    &&& c.shaken_not_stirred is None
    &&& holds_text(c.garnish, Seq::empty())
    &&& holds_text(c.preparation_instructions, d.strInstructions@)
    &&& c.coulour is None
    &&& c.ingredients@.len() == pairs.len()
    &&& forall|k: int|
        0 <= k < pairs.len() ==> {
            &&& (#[trigger] c.ingredients@[k]).amount == amounts[k]
            &&& c.ingredients@[k].name@ == pairs[k].0
            &&& c.ingredients@[k].coulour is None
        }
}

impl ThecocktaildbDrink {
    /// The recipe of this drink, given the amount in ml of each of its
    /// ingredient pairs, in order.  The database has no garnish and does not
    /// say whether to shake; a drink without a category keeps "All Day".
    pub fn to_cocktail(&self, amounts: &[u8]) -> (r: Cocktail)
        requires
            amounts@.len() == ingredient_pairs_of(ingredient_slots(*self)).len(),
        ensures
            is_drink_recipe(*self, amounts@, r),
    {
        let pairs = self.ingredient_pairs();
        let ghost pv = ingredient_pairs_of(ingredient_slots(*self));
        let mut ingredients: Vec<Ingredient> = Vec::new();
        let mut k: usize = 0;
        while k < pairs.len()
            invariant
                k <= pairs@.len(),
                pair_views(pairs@) == pv,
                pv.len() == amounts@.len(),
                ingredients@.len() == k,
                forall|j: int|
                    0 <= j < k ==> {
                        &&& (#[trigger] ingredients@[j]).amount == amounts@[j]
                        &&& ingredients@[j].name@ == pv[j].0
                        &&& ingredients@[j].coulour is None
                    },
            decreases pairs@.len() - k,
        {
            assert(pair_views(pairs@)[k as int] == (pairs@[k as int].0@, pairs@[k as int].1@));
            let name = pairs[k].0.clone();
            ingredients.push(Ingredient { amount: amounts[k], name, coulour: None });
            k = k + 1;
        }
        let category = match &self.strCategory {
            Some(c) => c.clone(),
            None => "All Day".to_owned(),
        };
        Cocktail {
            name: self.strDrink.clone(),
            ingredients,
            glass: Some(self.strGlass.clone()),
            category: Some(category),
            garnish: Some(String::new()),
            shaken_not_stirred: None,
            preparation_instructions: Some(self.strInstructions.clone()),
            coulour: None,
        }
    }
}

} // verus!
