//! Cocktail recipes in the form the robot mixes them, and the grammar of the
//! ingredient measures that recipe databases give ("1 1/2 oz", "3 cl").
use vstd::prelude::*;
use crate::server::syntax::{ascii_lower, copy_range, is_whitespace, is_ws, to_ascii_lower};
use crate::text::{chars_of, string_of};

verus! {

#[verifier::external_type_specification]
#[verifier::external_body]
#[verifier::reject_recursive_types(T)]
pub struct ExRgb<T>(rgb::Rgb<T>);

/// One ingredient of a cocktail.
#[derive(Debug)]
pub struct Ingredient {
    /// Amount in ml.
    pub amount: u8,
    pub name: String,
    pub coulour: Option<rgb::RGB8>,
}

/// A cocktail recipe as the robot mixes it.
#[derive(Debug)]
pub struct Cocktail {
    pub name: String,
    pub ingredients: Vec<Ingredient>,
    pub glass: Option<String>,
    pub category: Option<String>,
    pub garnish: Option<String>,
    pub shaken_not_stirred: Option<bool>,
    pub preparation_instructions: Option<String>,
    pub coulour: Option<rgb::RGB8>,
}

/// Whether `o` holds a string with the characters `s`.
pub open spec fn holds_text(o: Option<String>, s: Seq<char>) -> bool {
    o matches Some(t) && t@ == s
}

/// The empty glass: what a recipe is before anything is put into it.
pub open spec fn is_empty_glass(c: Cocktail) -> bool {
    &&& c.name@ == "Empty Glass"@
    &&& c.ingredients@.len() == 0
    &&& holds_text(c.glass, "Any"@)
    &&& holds_text(c.category, "All Day"@)
    &&& holds_text(c.garnish, "Slice of thin air"@)
    &&& c.shaken_not_stirred is None
    &&& holds_text(c.preparation_instructions, "Pour nothing into a glass of your choice."@)
    &&& c.coulour is None
}

impl Default for Cocktail {
    fn default() -> (r: Cocktail)
        ensures
            is_empty_glass(r),
    {
        Cocktail {
            name: "Empty Glass".to_owned(),
            glass: Some("Any".to_owned()),
            category: Some("All Day".to_owned()),
            shaken_not_stirred: None,
            ingredients: Vec::new(),
            garnish: Some("Slice of thin air".to_owned()),
            preparation_instructions: Some("Pour nothing into a glass of your choice.".to_owned()),
            coulour: None,
        }
    }
}

// ---------------------------------------------------------------------------
// The measure grammar
//
// A measure is, after optional white space, an optional whole number (digits,
// optionally a point and more digits) that white space must follow, an
// optional fraction `numerator/denominator`, optional white space, and an
// optional unit of one or two words of ASCII letters.  Digits are Unicode
// decimal digits and white space is Unicode white space.  Every part is
// optional, so every text has a parse: the longest one, part by part.
// ---------------------------------------------------------------------------

/// Unicode decimal digits (general category Nd).
pub open spec fn is_decimal_number(c: char) -> bool {
    let u = c as u32;
    ||| (0x30 <= u && u <= 0x39)
    ||| (0x660 <= u && u <= 0x669)
    ||| (0x6F0 <= u && u <= 0x6F9)
    ||| (0x7C0 <= u && u <= 0x7C9)
    ||| (0x966 <= u && u <= 0x96F)
    ||| (0x9E6 <= u && u <= 0x9EF)
    ||| (0xA66 <= u && u <= 0xA6F)
    ||| (0xAE6 <= u && u <= 0xAEF)
    ||| (0xB66 <= u && u <= 0xB6F)
    ||| (0xBE6 <= u && u <= 0xBEF)
    ||| (0xC66 <= u && u <= 0xC6F)
    ||| (0xCE6 <= u && u <= 0xCEF)
    ||| (0xD66 <= u && u <= 0xD6F)
    ||| (0xDE6 <= u && u <= 0xDEF)
    ||| (0xE50 <= u && u <= 0xE59)
    ||| (0xED0 <= u && u <= 0xED9)
    ||| (0xF20 <= u && u <= 0xF29)
    ||| (0x1040 <= u && u <= 0x1049)
    ||| (0x1090 <= u && u <= 0x1099)
    ||| (0x17E0 <= u && u <= 0x17E9)
    ||| (0x1810 <= u && u <= 0x1819)
    ||| (0x1946 <= u && u <= 0x194F)
    ||| (0x19D0 <= u && u <= 0x19D9)
    ||| (0x1A80 <= u && u <= 0x1A89)
    ||| (0x1A90 <= u && u <= 0x1A99)
    ||| (0x1B50 <= u && u <= 0x1B59)
    ||| (0x1BB0 <= u && u <= 0x1BB9)
    ||| (0x1C40 <= u && u <= 0x1C49)
    ||| (0x1C50 <= u && u <= 0x1C59)
    ||| (0xA620 <= u && u <= 0xA629)
    ||| (0xA8D0 <= u && u <= 0xA8D9)
    ||| (0xA900 <= u && u <= 0xA909)
    ||| (0xA9D0 <= u && u <= 0xA9D9)
    ||| (0xA9F0 <= u && u <= 0xA9F9)
    ||| (0xAA50 <= u && u <= 0xAA59)
    ||| (0xABF0 <= u && u <= 0xABF9)
    ||| (0xFF10 <= u && u <= 0xFF19)
    ||| (0x104A0 <= u && u <= 0x104A9)
    ||| (0x10D30 <= u && u <= 0x10D39)
    ||| (0x10D40 <= u && u <= 0x10D49)
    ||| (0x11066 <= u && u <= 0x1106F)
    ||| (0x110F0 <= u && u <= 0x110F9)
    ||| (0x11136 <= u && u <= 0x1113F)
    ||| (0x111D0 <= u && u <= 0x111D9)
    ||| (0x112F0 <= u && u <= 0x112F9)
    ||| (0x11450 <= u && u <= 0x11459)
    ||| (0x114D0 <= u && u <= 0x114D9)
    ||| (0x11650 <= u && u <= 0x11659)
    ||| (0x116C0 <= u && u <= 0x116C9)
    ||| (0x116D0 <= u && u <= 0x116E3)
    ||| (0x11730 <= u && u <= 0x11739)
    ||| (0x118E0 <= u && u <= 0x118E9)
    ||| (0x11950 <= u && u <= 0x11959)
    ||| (0x11BF0 <= u && u <= 0x11BF9)
    ||| (0x11C50 <= u && u <= 0x11C59)
    ||| (0x11D50 <= u && u <= 0x11D59)
    ||| (0x11DA0 <= u && u <= 0x11DA9)
    ||| (0x11F50 <= u && u <= 0x11F59)
    ||| (0x16130 <= u && u <= 0x16139)
    ||| (0x16A60 <= u && u <= 0x16A69)
    ||| (0x16AC0 <= u && u <= 0x16AC9)
    ||| (0x16B50 <= u && u <= 0x16B59)
    ||| (0x16D70 <= u && u <= 0x16D79)
    ||| (0x1CCF0 <= u && u <= 0x1CCF9)
    ||| (0x1D7CE <= u && u <= 0x1D7FF)
    ||| (0x1E140 <= u && u <= 0x1E149)
    ||| (0x1E2F0 <= u && u <= 0x1E2F9)
    ||| (0x1E4F0 <= u && u <= 0x1E4F9)
    ||| (0x1E5F1 <= u && u <= 0x1E5FA)
    ||| (0x1E950 <= u && u <= 0x1E959)
    ||| (0x1FBF0 <= u && u <= 0x1FBF9)
}

pub fn is_decimal_number_char(c: char) -> (r: bool)
    ensures
        r == is_decimal_number(c),
{
    let u = c as u32;
    (0x30 <= u && u <= 0x39)
        || (0x660 <= u && u <= 0x669)
        || (0x6F0 <= u && u <= 0x6F9)
        || (0x7C0 <= u && u <= 0x7C9)
        || (0x966 <= u && u <= 0x96F)
        || (0x9E6 <= u && u <= 0x9EF)
        || (0xA66 <= u && u <= 0xA6F)
        || (0xAE6 <= u && u <= 0xAEF)
        || (0xB66 <= u && u <= 0xB6F)
        || (0xBE6 <= u && u <= 0xBEF)
        || (0xC66 <= u && u <= 0xC6F)
        || (0xCE6 <= u && u <= 0xCEF)
        || (0xD66 <= u && u <= 0xD6F)
        || (0xDE6 <= u && u <= 0xDEF)
        || (0xE50 <= u && u <= 0xE59)
        || (0xED0 <= u && u <= 0xED9)
        || (0xF20 <= u && u <= 0xF29)
        || (0x1040 <= u && u <= 0x1049)
        || (0x1090 <= u && u <= 0x1099)
        || (0x17E0 <= u && u <= 0x17E9)
        || (0x1810 <= u && u <= 0x1819)
        || (0x1946 <= u && u <= 0x194F)
        || (0x19D0 <= u && u <= 0x19D9)
        || (0x1A80 <= u && u <= 0x1A89)
        || (0x1A90 <= u && u <= 0x1A99)
        || (0x1B50 <= u && u <= 0x1B59)
        || (0x1BB0 <= u && u <= 0x1BB9)
        || (0x1C40 <= u && u <= 0x1C49)
        || (0x1C50 <= u && u <= 0x1C59)
        || (0xA620 <= u && u <= 0xA629)
        || (0xA8D0 <= u && u <= 0xA8D9)
        || (0xA900 <= u && u <= 0xA909)
        || (0xA9D0 <= u && u <= 0xA9D9)
        || (0xA9F0 <= u && u <= 0xA9F9)
        || (0xAA50 <= u && u <= 0xAA59)
        || (0xABF0 <= u && u <= 0xABF9)
        || (0xFF10 <= u && u <= 0xFF19)
        || (0x104A0 <= u && u <= 0x104A9)
        || (0x10D30 <= u && u <= 0x10D39)
        || (0x10D40 <= u && u <= 0x10D49)
        || (0x11066 <= u && u <= 0x1106F)
        || (0x110F0 <= u && u <= 0x110F9)
        || (0x11136 <= u && u <= 0x1113F)
        || (0x111D0 <= u && u <= 0x111D9)
        || (0x112F0 <= u && u <= 0x112F9)
        || (0x11450 <= u && u <= 0x11459)
        || (0x114D0 <= u && u <= 0x114D9)
        || (0x11650 <= u && u <= 0x11659)
        || (0x116C0 <= u && u <= 0x116C9)
        || (0x116D0 <= u && u <= 0x116E3)
        || (0x11730 <= u && u <= 0x11739)
        || (0x118E0 <= u && u <= 0x118E9)
        || (0x11950 <= u && u <= 0x11959)
        || (0x11BF0 <= u && u <= 0x11BF9)
        || (0x11C50 <= u && u <= 0x11C59)
        || (0x11D50 <= u && u <= 0x11D59)
        || (0x11DA0 <= u && u <= 0x11DA9)
        || (0x11F50 <= u && u <= 0x11F59)
        || (0x16130 <= u && u <= 0x16139)
        || (0x16A60 <= u && u <= 0x16A69)
        || (0x16AC0 <= u && u <= 0x16AC9)
        || (0x16B50 <= u && u <= 0x16B59)
        || (0x16D70 <= u && u <= 0x16D79)
        || (0x1CCF0 <= u && u <= 0x1CCF9)
        || (0x1D7CE <= u && u <= 0x1D7FF)
        || (0x1E140 <= u && u <= 0x1E149)
        || (0x1E2F0 <= u && u <= 0x1E2F9)
        || (0x1E4F0 <= u && u <= 0x1E4F9)
        || (0x1E5F1 <= u && u <= 0x1E5FA)
        || (0x1E950 <= u && u <= 0x1E959)
        || (0x1FBF0 <= u && u <= 0x1FBF9)
}

/// ASCII letters.
pub open spec fn is_alpha(c: char) -> bool {
    ('a' <= c && c <= 'z') || ('A' <= c && c <= 'Z')
}

/// The character classes of the measure grammar.
#[derive(Clone, Copy)]
pub enum CharClass {
    Space,
    Digit,
    Alpha,
}

pub open spec fn in_class(c: char, k: CharClass) -> bool {
    match k {
        CharClass::Space => is_ws(c),
        CharClass::Digit => is_decimal_number(c),
        CharClass::Alpha => is_alpha(c),
    }
}

/// The number of characters of class `k` in `s` from position `i` on, up to
/// the first one of another class.
pub open spec fn span(s: Seq<char>, i: int, k: CharClass) -> nat
    decreases s.len() - i,
{
    if 0 <= i < s.len() && in_class(s[i], k) {
        1 + span(s, i + 1, k)
    } else {
        0
    }
}

pub fn in_class_char(c: char, k: CharClass) -> (r: bool)
    ensures
        r == in_class(c, k),
{
    match k {
        CharClass::Space => is_whitespace(c),
        CharClass::Digit => is_decimal_number_char(c),
        CharClass::Alpha => ('a' <= c && c <= 'z') || ('A' <= c && c <= 'Z'),
    }
}

/// Skips the characters of class `k` from position `i` on.
pub fn span_of(s: &[char], i: usize, k: CharClass) -> (r: usize)
    requires
        i <= s@.len(),
    ensures
        r == i + span(s@, i as int, k),
        r <= s@.len(),
{
    let mut j = i;
    while j < s.len() && in_class_char(s[j], k)
        invariant
            i <= j <= s@.len(),
            span(s@, i as int, k) == (j - i) + span(s@, j as int, k),
        decreases s@.len() - j,
    {
        j = j + 1;
    }
    j
}

/// Where the whole-number part starting at `p` ends, and where the white
/// space that must follow it ends.
pub open spec fn whole_group(s: Seq<char>, p: int) -> Option<(int, int)> {
    let e1 = p + span(s, p, CharClass::Digit);
    let d2 = span(s, e1 + 1, CharClass::Digit);
    let e = if e1 < s.len() && s[e1] == '.' && d2 > 0 {
        e1 + 1 + d2
    } else {
        e1
    };
    let w = span(s, e, CharClass::Space);
    if e1 > p && w > 0 {
        Some((e, e + w))
    } else {
        None
    }
}

/// Where the slash of the fraction starting at `p` stands, and where the
/// fraction ends.
pub open spec fn fraction_group(s: Seq<char>, p: int) -> Option<(int, int)> {
    let sl = p + span(s, p, CharClass::Digit);
    let m = span(s, sl + 1, CharClass::Digit);
    if sl > p && sl < s.len() && s[sl] == '/' && m > 0 {
        Some((sl, sl + 1 + m))
    } else {
        None
    }
}

/// Where the unit starting at `q` ends: a word, and a second one where white
/// space and a word follow.
pub open spec fn unit_group(s: Seq<char>, q: int) -> Option<int> {
    let a = q + span(s, q, CharClass::Alpha);
    let w = span(s, a, CharClass::Space);
    let b = span(s, a + w, CharClass::Alpha);
    if a == q {
        None
    } else if w > 0 && b > 0 {
        Some(a + w + b)
    } else {
        Some(a)
    }
}

/// The parts of a measure: whole number, numerator, denominator and unit.
pub struct MeasureParts {
    pub whole: Option<String>,
    pub numerator: Option<String>,
    pub denominator: Option<String>,
    pub unit: Option<String>,
}

/// Where the whole-number part of the measure `s` may start.
pub open spec fn whole_start(s: Seq<char>) -> int {
    span(s, 0, CharClass::Space) as int
}

/// Where the fraction of the measure `s` may start.
pub open spec fn fraction_start(s: Seq<char>) -> int {
    match whole_group(s, whole_start(s)) {
        Some((_, next)) => next,
        None => whole_start(s),
    }
}

/// Where the fraction of the measure `s`, if any, ends.
pub open spec fn fraction_end(s: Seq<char>) -> int {
    match fraction_group(s, fraction_start(s)) {
        Some((_, end)) => end,
        None => fraction_start(s),
    }
}

/// Where the unit of the measure `s` may start.
pub open spec fn unit_start(s: Seq<char>) -> int {
    fraction_end(s) + span(s, fraction_end(s), CharClass::Space)
}

/// The parts of the measure `s`, each as the text it spans: whole number,
/// numerator, denominator and unit.
pub open spec fn measure_parts(s: Seq<char>) -> (
    Option<Seq<char>>,
    Option<Seq<char>>,
    Option<Seq<char>>,
    Option<Seq<char>>,
) {
    let whole = match whole_group(s, whole_start(s)) {
        Some((e, _)) => Some(s.subrange(whole_start(s), e)),
        None => None,
    };
    let (numerator, denominator) = match fraction_group(s, fraction_start(s)) {
        Some((sl, end)) => (Some(s.subrange(fraction_start(s), sl)), Some(s.subrange(sl + 1, end))),
        None => (None, None),
    };
    let unit = match unit_group(s, unit_start(s)) {
        Some(end) => Some(s.subrange(unit_start(s), end)),
        None => None,
    };
    (whole, numerator, denominator, unit)
}

/// The characters of an optional string.
pub open spec fn opt_text(o: Option<String>) -> Option<Seq<char>> {
    match o {
        Some(t) => Some(t@),
        None => None,
    }
}

fn text_range(s: &[char], lo: usize, hi: usize) -> (r: String)
    requires
        lo <= hi <= s@.len(),
    ensures
        r@ == s@.subrange(lo as int, hi as int),
{
    let v = copy_range(s, lo, hi);
    string_of(v.as_slice())
}

/// Splits a measure into its parts.
pub fn parse_measure(measure: &str) -> (r: MeasureParts)
    ensures
        (opt_text(r.whole), opt_text(r.numerator), opt_text(r.denominator), opt_text(r.unit))
            == measure_parts(measure@),
{
    let cs = chars_of(measure);
    let s = cs.as_slice();
    let n = s.len();
    let p0 = span_of(s, 0, CharClass::Space);
    // whole number
    let e1 = span_of(s, p0, CharClass::Digit);
    let mut e = e1;
    if e1 < n && s[e1] == '.' {
        let f = span_of(s, e1 + 1, CharClass::Digit);
        if f > e1 + 1 {
            e = f;
        }
    }
    let after_ws = span_of(s, e, CharClass::Space);
    let mut whole: Option<String> = None;
    let mut p1 = p0;
    if e1 > p0 && after_ws > e {
        whole = Some(text_range(s, p0, e));
        p1 = after_ws;
    }
    // fraction
    let sl = span_of(s, p1, CharClass::Digit);
    let mut numerator: Option<String> = None;
    let mut denominator: Option<String> = None;
    let mut p2 = p1;
    if sl > p1 && sl < n && s[sl] == '/' {
        let end = span_of(s, sl + 1, CharClass::Digit);
        if end > sl + 1 {
            numerator = Some(text_range(s, p1, sl));
            denominator = Some(text_range(s, sl + 1, end));
            p2 = end;
        }
    }
    // unit
    let q = span_of(s, p2, CharClass::Space);
    let a = span_of(s, q, CharClass::Alpha);
    let mut unit: Option<String> = None;
    if a > q {
        let w = span_of(s, a, CharClass::Space);
        let b = span_of(s, w, CharClass::Alpha);
        if w > a && b > w {
            unit = Some(text_range(s, q, b));
        } else {
            unit = Some(text_range(s, q, a));
        }
    }
    MeasureParts { whole, numerator, denominator, unit }
}

// ---------------------------------------------------------------------------
// Units
// ---------------------------------------------------------------------------

/// Lowers the ASCII letters of `s`.  On a unit of the measure grammar, which
/// holds only ASCII letters and white space, this is full lower-casing.
pub open spec fn lower_text(s: Seq<char>) -> Seq<char> {
    s.map_values(|c: char| ascii_lower(c))
}

/// Tenths of a ml in one of the unit `u` (written in lower case), for the
/// units that recipes use.
pub open spec fn unit_tenths_ml(u: Seq<char>) -> Option<u32> {
    if u == "oz"@ || u == "fl oz"@ || u == "ounces"@ {
        Some(300)
    } else if u == "ml"@ || u == "milliliters"@ {
        Some(10)
    } else if u == "cl"@ || u == "centiliters"@ {
        Some(100)
    } else if u == "dash"@ || u == "dashes"@ {
        Some(10)
    } else if u == "tl"@ || u == "tsp"@ || u == "teaspoon"@ {
        Some(50)
    } else if u == "part"@ || u == "parts"@ || u == "unit"@ {
        Some(400)
    } else if u == "el"@ || u == "tablespoon"@ || u == "tablespoons"@ || u == "tbsp"@ {
        Some(150)
    } else if u == "shot"@ || u == "shots"@ {
        Some(450)
    } else if u == "can"@ {
        Some(1800)
    } else if u == "cup"@ || u == "cups"@ {
        Some(2400)
    } else if u == "pinch"@ {
        Some(3)
    } else if u == "glass"@ || u == "glasses"@ {
        Some(2500)
    } else if u == "pint"@ {
        Some(4730)
    } else if u == "mug"@ {
        Some(3550)
    } else if u == "l"@ || u == "liter"@ || u == "liters"@ {
        Some(10000)
    } else {
        None
    }
}

/// The units that recipes use, each (in lower case) with its size in tenths
/// of a ml: ounces 30 ml, ml 1, cl 10, a dash 1, a teaspoon 5, a part 40, a
/// tablespoon 15, a shot 45, a can 180, a cup 240, a pinch 0.3, a glass 250,
/// a pint 473, a mug 355, a liter 1000.  Singular and plural forms alike.
pub open spec fn recipe_units() -> Seq<(Seq<char>, u32)> {
    seq![
        ("oz"@, 300),
        ("fl oz"@, 300),
        ("ounces"@, 300),
        ("ml"@, 10),
        ("milliliters"@, 10),
        ("cl"@, 100),
        ("centiliters"@, 100),
        ("dash"@, 10),
        ("dashes"@, 10),
        ("tl"@, 50),
        ("tsp"@, 50),
        ("teaspoon"@, 50),
        ("part"@, 400),
        ("parts"@, 400),
        ("unit"@, 400),
        ("el"@, 150),
        ("tablespoon"@, 150),
        ("tablespoons"@, 150),
        ("tbsp"@, 150),
        ("shot"@, 450),
        ("shots"@, 450),
        ("can"@, 1800),
        ("cup"@, 2400),
        ("cups"@, 2400),
        ("pinch"@, 3),
        ("glass"@, 2500),
        ("glasses"@, 2500),
        ("pint"@, 4730),
        ("mug"@, 3550),
        ("l"@, 10000),
        ("liter"@, 10000),
        ("liters"@, 10000),
    ]
}

/// Every unit that recipes use has its size: in any mix of upper- and
/// lower-case letters, its name is found with the size the table gives.
pub proof fn lemma_recipe_units_have_their_sizes(i: int, u: Seq<char>)
    requires
        0 <= i < recipe_units().len(),
        lower_text(u) == recipe_units()[i].0,
    ensures
        unit_tenths_ml(lower_text(u)) == Some(recipe_units()[i].1),
{
    reveal_strlit("oz");
    reveal_strlit("fl oz");
    reveal_strlit("ounces");
    reveal_strlit("ml");
    reveal_strlit("milliliters");
    reveal_strlit("cl");
    reveal_strlit("centiliters");
    reveal_strlit("dash");
    reveal_strlit("dashes");
    reveal_strlit("tl");
    reveal_strlit("tsp");
    reveal_strlit("teaspoon");
    reveal_strlit("part");
    reveal_strlit("parts");
    reveal_strlit("unit");
    reveal_strlit("el");
    reveal_strlit("tablespoon");
    reveal_strlit("tablespoons");
    reveal_strlit("tbsp");
    reveal_strlit("shot");
    reveal_strlit("shots");
    reveal_strlit("can");
    reveal_strlit("cup");
    reveal_strlit("cups");
    reveal_strlit("pinch");
    reveal_strlit("glass");
    reveal_strlit("glasses");
    reveal_strlit("pint");
    reveal_strlit("mug");
    reveal_strlit("l");
    reveal_strlit("liter");
    reveal_strlit("liters");
    assert("oz"@.len() == 2);
    assert("fl oz"@.len() == 5);
    assert("ounces"@.len() == 6);
    assert("ml"@.len() == 2);
    assert("milliliters"@.len() == 11);
    assert("cl"@.len() == 2);
    assert("centiliters"@.len() == 11);
    assert("dash"@.len() == 4);
    assert("dashes"@.len() == 6);
    assert("tl"@.len() == 2);
    assert("tsp"@.len() == 3);
    assert("teaspoon"@.len() == 8);
    assert("part"@.len() == 4);
    assert("parts"@.len() == 5);
    assert("unit"@.len() == 4);
    assert("el"@.len() == 2);
    assert("tablespoon"@.len() == 10);
    assert("tablespoons"@.len() == 11);
    assert("tbsp"@.len() == 4);
    assert("shot"@.len() == 4);
    assert("shots"@.len() == 5);
    assert("can"@.len() == 3);
    assert("cup"@.len() == 3);
    assert("cups"@.len() == 4);
    assert("pinch"@.len() == 5);
    assert("glass"@.len() == 5);
    assert("glasses"@.len() == 7);
    assert("pint"@.len() == 4);
    assert("mug"@.len() == 3);
    assert("l"@.len() == 1);
    assert("liter"@.len() == 5);
    assert("liters"@.len() == 6);
    let t = recipe_units();
    if i == 0 {
        assert(t[0] == ("oz"@, 300u32));
        assert(unit_tenths_ml("oz"@) == Some(300u32));
    } else if i == 1 {
        assert(t[1] == ("fl oz"@, 300u32));
        assert(unit_tenths_ml("fl oz"@) == Some(300u32));
    } else if i == 2 {
        assert(t[2] == ("ounces"@, 300u32));
        assert(unit_tenths_ml("ounces"@) == Some(300u32));
    } else if i == 3 {
        assert(t[3] == ("ml"@, 10u32));
        assert("ml"@[0] != "oz"@[0]);
        assert(unit_tenths_ml("ml"@) == Some(10u32));
    } else if i == 4 {
        assert(t[4] == ("milliliters"@, 10u32));
        assert(unit_tenths_ml("milliliters"@) == Some(10u32));
    } else if i == 5 {
        assert(t[5] == ("cl"@, 100u32));
        assert("cl"@[0] != "oz"@[0]);
        assert("cl"@[0] != "ml"@[0]);
        assert(unit_tenths_ml("cl"@) == Some(100u32));
    } else if i == 6 {
        assert(t[6] == ("centiliters"@, 100u32));
        assert("centiliters"@[0] != "milliliters"@[0]);
        assert(unit_tenths_ml("centiliters"@) == Some(100u32));
    } else if i == 7 {
        assert(t[7] == ("dash"@, 10u32));
        assert(unit_tenths_ml("dash"@) == Some(10u32));
    } else if i == 8 {
        assert(t[8] == ("dashes"@, 10u32));
        assert("dashes"@[0] != "ounces"@[0]);
        assert(unit_tenths_ml("dashes"@) == Some(10u32));
    } else if i == 9 {
        assert(t[9] == ("tl"@, 50u32));
        assert("tl"@[0] != "oz"@[0]);
        assert("tl"@[0] != "ml"@[0]);
        assert("tl"@[0] != "cl"@[0]);
        assert(unit_tenths_ml("tl"@) == Some(50u32));
    } else if i == 10 {
        assert(t[10] == ("tsp"@, 50u32));
        assert(unit_tenths_ml("tsp"@) == Some(50u32));
    } else if i == 11 {
        assert(t[11] == ("teaspoon"@, 50u32));
        assert(unit_tenths_ml("teaspoon"@) == Some(50u32));
    } else if i == 12 {
        assert(t[12] == ("part"@, 400u32));
        assert("part"@[0] != "dash"@[0]);
        assert(unit_tenths_ml("part"@) == Some(400u32));
    } else if i == 13 {
        assert(t[13] == ("parts"@, 400u32));
        assert("parts"@[0] != "fl oz"@[0]);
        assert(unit_tenths_ml("parts"@) == Some(400u32));
    } else if i == 14 {
        assert(t[14] == ("unit"@, 400u32));
        assert("unit"@[0] != "dash"@[0]);
        assert("unit"@[0] != "part"@[0]);
        assert(unit_tenths_ml("unit"@) == Some(400u32));
    } else if i == 15 {
        assert(t[15] == ("el"@, 150u32));
        assert("el"@[0] != "oz"@[0]);
        assert("el"@[0] != "ml"@[0]);
        assert("el"@[0] != "cl"@[0]);
        assert("el"@[0] != "tl"@[0]);
        assert(unit_tenths_ml("el"@) == Some(150u32));
    } else if i == 16 {
        assert(t[16] == ("tablespoon"@, 150u32));
        assert(unit_tenths_ml("tablespoon"@) == Some(150u32));
    } else if i == 17 {
        assert(t[17] == ("tablespoons"@, 150u32));
        assert("tablespoons"@[0] != "milliliters"@[0]);
        assert("tablespoons"@[0] != "centiliters"@[0]);
        assert(unit_tenths_ml("tablespoons"@) == Some(150u32));
    } else if i == 18 {
        assert(t[18] == ("tbsp"@, 150u32));
        assert("tbsp"@[0] != "dash"@[0]);
        assert("tbsp"@[0] != "part"@[0]);
        assert("tbsp"@[0] != "unit"@[0]);
        assert(unit_tenths_ml("tbsp"@) == Some(150u32));
    } else if i == 19 {
        assert(t[19] == ("shot"@, 450u32));
        assert("shot"@[0] != "dash"@[0]);
        assert("shot"@[0] != "part"@[0]);
        assert("shot"@[0] != "unit"@[0]);
        assert("shot"@[0] != "tbsp"@[0]);
        assert(unit_tenths_ml("shot"@) == Some(450u32));
    } else if i == 20 {
        assert(t[20] == ("shots"@, 450u32));
        assert("shots"@[0] != "fl oz"@[0]);
        assert("shots"@[0] != "parts"@[0]);
        assert(unit_tenths_ml("shots"@) == Some(450u32));
    } else if i == 21 {
        assert(t[21] == ("can"@, 1800u32));
        assert("can"@[0] != "tsp"@[0]);
        assert(unit_tenths_ml("can"@) == Some(1800u32));
    } else if i == 22 {
        assert(t[22] == ("cup"@, 2400u32));
        assert("cup"@[0] != "tsp"@[0]);
        assert("cup"@[1] != "can"@[1]);
        assert(unit_tenths_ml("cup"@) == Some(2400u32));
    } else if i == 23 {
        assert(t[23] == ("cups"@, 2400u32));
        assert("cups"@[0] != "dash"@[0]);
        assert("cups"@[0] != "part"@[0]);
        assert("cups"@[0] != "unit"@[0]);
        assert("cups"@[0] != "tbsp"@[0]);
        assert("cups"@[0] != "shot"@[0]);
        assert(unit_tenths_ml("cups"@) == Some(2400u32));
    } else if i == 24 {
        assert(t[24] == ("pinch"@, 3u32));
        assert("pinch"@[0] != "fl oz"@[0]);
        assert("pinch"@[1] != "parts"@[1]);
        assert("pinch"@[0] != "shots"@[0]);
        assert(unit_tenths_ml("pinch"@) == Some(3u32));
    } else if i == 25 {
        assert(t[25] == ("glass"@, 2500u32));
        assert("glass"@[0] != "fl oz"@[0]);
        assert("glass"@[0] != "parts"@[0]);
        assert("glass"@[0] != "shots"@[0]);
        assert("glass"@[0] != "pinch"@[0]);
        assert(unit_tenths_ml("glass"@) == Some(2500u32));
    } else if i == 26 {
        assert(t[26] == ("glasses"@, 2500u32));
        assert(unit_tenths_ml("glasses"@) == Some(2500u32));
    } else if i == 27 {
        assert(t[27] == ("pint"@, 4730u32));
        assert("pint"@[0] != "dash"@[0]);
        assert("pint"@[1] != "part"@[1]);
        assert("pint"@[0] != "unit"@[0]);
        assert("pint"@[0] != "tbsp"@[0]);
        assert("pint"@[0] != "shot"@[0]);
        assert("pint"@[0] != "cups"@[0]);
        assert(unit_tenths_ml("pint"@) == Some(4730u32));
    } else if i == 28 {
        assert(t[28] == ("mug"@, 3550u32));
        assert("mug"@[0] != "tsp"@[0]);
        assert("mug"@[0] != "can"@[0]);
        assert("mug"@[0] != "cup"@[0]);
        assert(unit_tenths_ml("mug"@) == Some(3550u32));
    } else if i == 29 {
        assert(t[29] == ("l"@, 10000u32));
        assert(unit_tenths_ml("l"@) == Some(10000u32));
    } else if i == 30 {
        assert(t[30] == ("liter"@, 10000u32));
        assert("liter"@[0] != "fl oz"@[0]);
        assert("liter"@[0] != "parts"@[0]);
        assert("liter"@[0] != "shots"@[0]);
        assert("liter"@[0] != "pinch"@[0]);
        assert("liter"@[0] != "glass"@[0]);
        assert(unit_tenths_ml("liter"@) == Some(10000u32));
    } else if i == 31 {
        assert(t[31] == ("liters"@, 10000u32));
        assert("liters"@[0] != "ounces"@[0]);
        assert("liters"@[0] != "dashes"@[0]);
        assert(unit_tenths_ml("liters"@) == Some(10000u32));
    }
}

fn lower_chars(s: &[char]) -> (r: Vec<char>)
    ensures
        r@ == lower_text(s@),
{
    let mut out: Vec<char> = Vec::new();
    let mut i: usize = 0;
    while i < s.len()
        invariant
            i <= s@.len(),
            out@ == lower_text(s@.take(i as int)),
        decreases s@.len() - i,
    {
        out.push(to_ascii_lower(s[i]));
        i = i + 1;
        assert(out@ =~= lower_text(s@.take(i as int)));
    }
    assert(s@.take(s@.len() as int) =~= s@);
    out
}

fn text_is(a: &[char], b: &str) -> (r: bool)
    ensures
        r == (a@ == b@),
{
    let bv = chars_of(b);
    if a.len() != bv.len() {
        return false;
    }
    let mut i: usize = 0;
    while i < a.len()
        invariant
            i <= a@.len(),
            a@.len() == bv@.len(),
            bv@ == b@,
            forall|j: int| 0 <= j < i ==> a@[j] == bv@[j],
        decreases a@.len() - i,
    {
        if a[i] != bv[i] {
            return false;
        }
        i = i + 1;
    }
    assert(a@ =~= bv@);
    true
}

/// The size of one `unit` in tenths of a ml, or, for a unit that recipes do
/// not use, the unit in lower case.
pub fn unit_factor(unit: &str) -> (r: Result<u32, String>)
    ensures
        match unit_tenths_ml(lower_text(unit@)) {
            Some(f) => r == Ok::<u32, String>(f),
            None => r matches Err(e) && e@ == lower_text(unit@),
        },
{
    let raw = chars_of(unit);
    let lower = lower_chars(raw.as_slice());
    let u = lower.as_slice();
    if text_is(u, "oz") || text_is(u, "fl oz") || text_is(u, "ounces") {
        Ok(300)
    } else if text_is(u, "ml") || text_is(u, "milliliters") {
        Ok(10)
    } else if text_is(u, "cl") || text_is(u, "centiliters") {
        Ok(100)
    } else if text_is(u, "dash") || text_is(u, "dashes") {
        Ok(10)
    } else if text_is(u, "tl") || text_is(u, "tsp") || text_is(u, "teaspoon") {
        Ok(50)
    } else if text_is(u, "part") || text_is(u, "parts") || text_is(u, "unit") {
        Ok(400)
    } else if text_is(u, "el") || text_is(u, "tablespoon") || text_is(u, "tablespoons") || text_is(
        u,
        "tbsp",
    ) {
        Ok(150)
    } else if text_is(u, "shot") || text_is(u, "shots") {
        Ok(450)
    } else if text_is(u, "can") {
        Ok(1800)
    } else if text_is(u, "cup") || text_is(u, "cups") {
        Ok(2400)
    } else if text_is(u, "pinch") {
        Ok(3)
    } else if text_is(u, "glass") || text_is(u, "glasses") {
        Ok(2500)
    } else if text_is(u, "pint") {
        Ok(4730)
    } else if text_is(u, "mug") {
        Ok(3550)
    } else if text_is(u, "l") || text_is(u, "liter") || text_is(u, "liters") {
        Ok(10000)
    } else {
        Err(string_of(u))
    }
}

} // verus!
