//! The colors of the arrows.

use vstd::prelude::*;

verus! {

/// The named colors from which a module's arrow color is drawn.
pub open spec fn palette() -> Seq<&'static str> {
    seq![
        "#AliceBlue",
        "#AntiqueWhite",
        "#Aqua",
        "#Aquamarine",
        "#Azure",
        "#Beige",
        "#Bisque",
        "#Black",
        "#BlanchedAlmond",
        "#Blue",
        "#BlueViolet",
        "#Brown",
        "#BurlyWood",
        "#CadetBlue",
        "#Chartreuse",
        "#Chocolate",
        "#Coral",
        "#CornflowerBlue",
        "#Cornsilk",
        "#Crimson",
        "#Cyan",
        "#DarkBlue",
        "#DarkCyan",
        "#DarkGoldenRod",
        "#DarkGray",
        "#DarkGrey",
        "#DarkGreen",
        "#DarkKhaki",
        "#DarkMagenta",
        "#DarkOliveGreen",
        "#Darkorange",
        "#DarkOrchid",
        "#DarkRed",
        "#DarkSalmon",
        "#DarkSeaGreen",
        "#DarkSlateBlue",
        "#DarkSlateGray",
        "#DarkSlateGrey",
        "#DarkTurquoise",
        "#DarkViolet",
        "#DeepPink",
        "#DeepSkyBlue",
        "#DimGray",
        "#DimGrey",
        "#DodgerBlue",
        "#FireBrick",
        "#FloralWhite",
        "#ForestGreen",
        "#Fuchsia",
        "#Gainsboro",
        "#GhostWhite",
        "#Gold",
        "#GoldenRod",
        "#Gray",
        "#Grey",
        "#Green",
        "#GreenYellow",
        "#HoneyDew",
        "#HotPink",
        "#IndianRed",
        "#Indigo",
        "#Ivory",
        "#Khaki",
        "#Lavender",
        "#LavenderBlush",
        "#LawnGreen",
        "#LemonChiffon",
        "#LightBlue",
        "#LightCoral",
        "#LightCyan",
        "#LightGoldenRodYellow",
        "#LightGray",
        "#LightGrey",
        "#LightGreen",
        "#LightPink",
        "#LightSalmon",
        "#LightSeaGreen",
        "#LightSkyBlue",
        "#LightSlateGray",
        "#LightSlateGrey",
        "#LightSteelBlue",
        "#LightYellow",
        "#Lime",
        "#LimeGreen",
        "#Linen",
        "#Magenta",
        "#Maroon",
        "#MediumAquaMarine",
        "#MediumBlue",
        "#MediumOrchid",
        "#MediumPurple",
        "#MediumSeaGreen",
        "#MediumSlateBlue",
        "#MediumSpringGreen",
        "#MediumTurquoise",
        "#MediumVioletRed",
        "#MidnightBlue",
        "#MintCream",
        "#MistyRose",
        "#Moccasin",
        "#NavajoWhite",
        "#Navy",
        "#OldLace",
        "#Olive",
        "#OliveDrab",
        "#Orange",
        "#OrangeRed",
        "#Orchid",
        "#PaleGoldenRod",
        "#PaleGreen",
        "#PaleTurquoise",
        "#PaleVioletRed",
        "#PapayaWhip",
        "#PeachPuff",
        "#Peru",
        "#Pink",
        "#Plum",
        "#PowderBlue",
        "#Purple",
        "#Red",
        "#RosyBrown",
        "#RoyalBlue",
        "#SaddleBrown",
        "#Salmon",
        "#SandyBrown",
        "#SeaGreen",
        "#SeaShell",
        "#Sienna",
        "#Silver",
        "#SkyBlue",
        "#SlateBlue",
        "#SlateGray",
        "#SlateGrey",
        "#Snow",
        "#SpringGreen",
        "#SteelBlue",
        "#Tan",
        "#Teal",
        "#Thistle",
        "#Tomato",
        "#Turquoise",
        "#Violet",
        "#Wheat",
        "#White",
        "#WhiteSmoke",
        "#Yellow",
        "#YellowGreen",
    ]
}

/// The palette as a list.
pub fn arrow_colors() -> (colors: Vec<&'static str>)
    ensures
        colors@ == palette(),
        colors@.len() == 147,
{
    let colors = vec![
        "#AliceBlue",
        "#AntiqueWhite",
        "#Aqua",
        "#Aquamarine",
        "#Azure",
        "#Beige",
        "#Bisque",
        "#Black",
        "#BlanchedAlmond",
        "#Blue",
        "#BlueViolet",
        "#Brown",
        "#BurlyWood",
        "#CadetBlue",
        "#Chartreuse",
        "#Chocolate",
        "#Coral",
        "#CornflowerBlue",
        "#Cornsilk",
        "#Crimson",
        "#Cyan",
        "#DarkBlue",
        "#DarkCyan",
        "#DarkGoldenRod",
        "#DarkGray",
        "#DarkGrey",
        "#DarkGreen",
        "#DarkKhaki",
        "#DarkMagenta",
        "#DarkOliveGreen",
        "#Darkorange",
        "#DarkOrchid",
        "#DarkRed",
        "#DarkSalmon",
        "#DarkSeaGreen",
        "#DarkSlateBlue",
        "#DarkSlateGray",
        "#DarkSlateGrey",
        "#DarkTurquoise",
        "#DarkViolet",
        "#DeepPink",
        "#DeepSkyBlue",
        "#DimGray",
        "#DimGrey",
        "#DodgerBlue",
        "#FireBrick",
        "#FloralWhite",
        "#ForestGreen",
        "#Fuchsia",
        "#Gainsboro",
        "#GhostWhite",
        "#Gold",
        "#GoldenRod",
        "#Gray",
        "#Grey",
        "#Green",
        "#GreenYellow",
        "#HoneyDew",
        "#HotPink",
        "#IndianRed",
        "#Indigo",
        "#Ivory",
        "#Khaki",
        "#Lavender",
        "#LavenderBlush",
        "#LawnGreen",
        "#LemonChiffon",
        "#LightBlue",
        "#LightCoral",
        "#LightCyan",
        "#LightGoldenRodYellow",
        "#LightGray",
        "#LightGrey",
        "#LightGreen",
        "#LightPink",
        "#LightSalmon",
        "#LightSeaGreen",
        "#LightSkyBlue",
        "#LightSlateGray",
        "#LightSlateGrey",
        "#LightSteelBlue",
        "#LightYellow",
        "#Lime",
        "#LimeGreen",
        "#Linen",
        "#Magenta",
        "#Maroon",
        "#MediumAquaMarine",
        "#MediumBlue",
        "#MediumOrchid",
        "#MediumPurple",
        "#MediumSeaGreen",
        "#MediumSlateBlue",
        "#MediumSpringGreen",
        "#MediumTurquoise",
        "#MediumVioletRed",
        "#MidnightBlue",
        "#MintCream",
        "#MistyRose",
        "#Moccasin",
        "#NavajoWhite",
        "#Navy",
        "#OldLace",
        "#Olive",
        "#OliveDrab",
        "#Orange",
        "#OrangeRed",
        "#Orchid",
        "#PaleGoldenRod",
        "#PaleGreen",
        "#PaleTurquoise",
        "#PaleVioletRed",
        "#PapayaWhip",
        "#PeachPuff",
        "#Peru",
        "#Pink",
        "#Plum",
        "#PowderBlue",
        "#Purple",
        "#Red",
        "#RosyBrown",
        "#RoyalBlue",
        "#SaddleBrown",
        "#Salmon",
        "#SandyBrown",
        "#SeaGreen",
        "#SeaShell",
        "#Sienna",
        "#Silver",
        "#SkyBlue",
        "#SlateBlue",
        "#SlateGray",
        "#SlateGrey",
        "#Snow",
        "#SpringGreen",
        "#SteelBlue",
        "#Tan",
        "#Teal",
        "#Thistle",
        "#Tomato",
        "#Turquoise",
        "#Violet",
        "#Wheat",
        "#White",
        "#WhiteSmoke",
        "#Yellow",
        "#YellowGreen",
    ];
    proof {
        assert(colors@ =~= palette());
    }
    colors
}

/// The characters of each color of a list.
pub open spec fn color_texts(colors: Seq<&'static str>) -> Seq<Seq<char>> {
    colors.map_values(|c: &'static str| c@)
}

/// `SliceRandom::choose` of the rand crate on the palette, with the generator
/// of `rand::thread_rng`: one element of the list, or `None` where the list is
/// empty. Which element comes is left open: it differs from call to call.
/// The generator stops the program where the system gives it no seed.
#[verifier::external_body]
fn choose_color(palette: &Vec<&'static str>) -> (color: Option<&'static str>)
    ensures
        palette@.len() == 0 ==> color is None,
        palette@.len() > 0 ==> color is Some && palette@.contains(color.unwrap()),
{
    match rand::seq::SliceRandom::choose(palette.as_slice(), &mut rand::thread_rng()) {
        Some(color) => Some(*color),
        None => None,
    }
}

/// Draws one color for each of `count` modules, with replacement.
pub fn pick_colors(count: usize, palette: &Vec<&'static str>) -> (colors: Vec<&'static str>)
    requires
        palette@.len() > 0,
    ensures
        colors@.len() == count,
        forall|i: int| 0 <= i < count ==> palette@.contains(#[trigger] colors@[i]),
{
    let mut colors: Vec<&'static str> = Vec::new();
    let mut i: usize = 0;
    while i < count
        invariant
            palette@.len() > 0,
            i <= count,
            colors@.len() == i,
            forall|k: int| 0 <= k < i ==> palette@.contains(#[trigger] colors@[k]),
        decreases count - i,
    {
        let color = choose_color(palette);
        colors.push(color.unwrap());
        i += 1;
    }
    colors
}

/// The color's name holds no hyphen, no `@` and no line break.
pub open spec fn is_plain_color(color: Seq<char>) -> bool {
    forall|k: int| 0 <= k < color.len() ==> color[k] != '-' && color[k] != '@' && color[k] != '\n'
}

proof fn lemma_colors_are_plain_0()
    ensures
        forall|i: int| 0 <= i < 25 ==> is_plain_color(#[trigger] palette()[i]@),
{
    reveal_strlit("#AliceBlue");
    assert(is_plain_color("#AliceBlue"@));
    reveal_strlit("#AntiqueWhite");
    assert(is_plain_color("#AntiqueWhite"@));
    reveal_strlit("#Aqua");
    assert(is_plain_color("#Aqua"@));
    reveal_strlit("#Aquamarine");
    assert(is_plain_color("#Aquamarine"@));
    reveal_strlit("#Azure");
    assert(is_plain_color("#Azure"@));
    reveal_strlit("#Beige");
    assert(is_plain_color("#Beige"@));
    reveal_strlit("#Bisque");
    assert(is_plain_color("#Bisque"@));
    reveal_strlit("#Black");
    assert(is_plain_color("#Black"@));
    reveal_strlit("#BlanchedAlmond");
    assert(is_plain_color("#BlanchedAlmond"@));
    reveal_strlit("#Blue");
    assert(is_plain_color("#Blue"@));
    reveal_strlit("#BlueViolet");
    assert(is_plain_color("#BlueViolet"@));
    reveal_strlit("#Brown");
    assert(is_plain_color("#Brown"@));
    reveal_strlit("#BurlyWood");
    assert(is_plain_color("#BurlyWood"@));
    reveal_strlit("#CadetBlue");
    assert(is_plain_color("#CadetBlue"@));
    reveal_strlit("#Chartreuse");
    assert(is_plain_color("#Chartreuse"@));
    reveal_strlit("#Chocolate");
    assert(is_plain_color("#Chocolate"@));
    reveal_strlit("#Coral");
    assert(is_plain_color("#Coral"@));
    reveal_strlit("#CornflowerBlue");
    assert(is_plain_color("#CornflowerBlue"@));
    reveal_strlit("#Cornsilk");
    assert(is_plain_color("#Cornsilk"@));
    reveal_strlit("#Crimson");
    assert(is_plain_color("#Crimson"@));
    reveal_strlit("#Cyan");
    assert(is_plain_color("#Cyan"@));
    reveal_strlit("#DarkBlue");
    assert(is_plain_color("#DarkBlue"@));
    reveal_strlit("#DarkCyan");
    assert(is_plain_color("#DarkCyan"@));
    reveal_strlit("#DarkGoldenRod");
    assert(is_plain_color("#DarkGoldenRod"@));
    reveal_strlit("#DarkGray");
    assert(is_plain_color("#DarkGray"@));
}

proof fn lemma_colors_are_plain_1()
    ensures
        forall|i: int| 25 <= i < 50 ==> is_plain_color(#[trigger] palette()[i]@),
{
    reveal_strlit("#DarkGrey");
    assert(is_plain_color("#DarkGrey"@));
    reveal_strlit("#DarkGreen");
    assert(is_plain_color("#DarkGreen"@));
    reveal_strlit("#DarkKhaki");
    assert(is_plain_color("#DarkKhaki"@));
    reveal_strlit("#DarkMagenta");
    assert(is_plain_color("#DarkMagenta"@));
    reveal_strlit("#DarkOliveGreen");
    assert(is_plain_color("#DarkOliveGreen"@));
    reveal_strlit("#Darkorange");
    assert(is_plain_color("#Darkorange"@));
    reveal_strlit("#DarkOrchid");
    assert(is_plain_color("#DarkOrchid"@));
    reveal_strlit("#DarkRed");
    assert(is_plain_color("#DarkRed"@));
    reveal_strlit("#DarkSalmon");
    assert(is_plain_color("#DarkSalmon"@));
    reveal_strlit("#DarkSeaGreen");
    assert(is_plain_color("#DarkSeaGreen"@));
    reveal_strlit("#DarkSlateBlue");
    assert(is_plain_color("#DarkSlateBlue"@));
    reveal_strlit("#DarkSlateGray");
    assert(is_plain_color("#DarkSlateGray"@));
    reveal_strlit("#DarkSlateGrey");
    assert(is_plain_color("#DarkSlateGrey"@));
    reveal_strlit("#DarkTurquoise");
    assert(is_plain_color("#DarkTurquoise"@));
    reveal_strlit("#DarkViolet");
    assert(is_plain_color("#DarkViolet"@));
    reveal_strlit("#DeepPink");
    assert(is_plain_color("#DeepPink"@));
    reveal_strlit("#DeepSkyBlue");
    assert(is_plain_color("#DeepSkyBlue"@));
    reveal_strlit("#DimGray");
    assert(is_plain_color("#DimGray"@));
    reveal_strlit("#DimGrey");
    assert(is_plain_color("#DimGrey"@));
    reveal_strlit("#DodgerBlue");
    assert(is_plain_color("#DodgerBlue"@));
    reveal_strlit("#FireBrick");
    assert(is_plain_color("#FireBrick"@));
    reveal_strlit("#FloralWhite");
    assert(is_plain_color("#FloralWhite"@));
    reveal_strlit("#ForestGreen");
    assert(is_plain_color("#ForestGreen"@));
    reveal_strlit("#Fuchsia");
    assert(is_plain_color("#Fuchsia"@));
    reveal_strlit("#Gainsboro");
    assert(is_plain_color("#Gainsboro"@));
}

proof fn lemma_colors_are_plain_2()
    ensures
        forall|i: int| 50 <= i < 75 ==> is_plain_color(#[trigger] palette()[i]@),
{
    reveal_strlit("#GhostWhite");
    assert(is_plain_color("#GhostWhite"@));
    reveal_strlit("#Gold");
    assert(is_plain_color("#Gold"@));
    reveal_strlit("#GoldenRod");
    assert(is_plain_color("#GoldenRod"@));
    reveal_strlit("#Gray");
    assert(is_plain_color("#Gray"@));
    reveal_strlit("#Grey");
    assert(is_plain_color("#Grey"@));
    reveal_strlit("#Green");
    assert(is_plain_color("#Green"@));
    reveal_strlit("#GreenYellow");
    assert(is_plain_color("#GreenYellow"@));
    reveal_strlit("#HoneyDew");
    assert(is_plain_color("#HoneyDew"@));
    reveal_strlit("#HotPink");
    assert(is_plain_color("#HotPink"@));
    reveal_strlit("#IndianRed");
    assert(is_plain_color("#IndianRed"@));
    reveal_strlit("#Indigo");
    assert(is_plain_color("#Indigo"@));
    reveal_strlit("#Ivory");
    assert(is_plain_color("#Ivory"@));
    reveal_strlit("#Khaki");
    assert(is_plain_color("#Khaki"@));
    reveal_strlit("#Lavender");
    assert(is_plain_color("#Lavender"@));
    reveal_strlit("#LavenderBlush");
    assert(is_plain_color("#LavenderBlush"@));
    reveal_strlit("#LawnGreen");
    assert(is_plain_color("#LawnGreen"@));
    reveal_strlit("#LemonChiffon");
    assert(is_plain_color("#LemonChiffon"@));
    reveal_strlit("#LightBlue");
    assert(is_plain_color("#LightBlue"@));
    reveal_strlit("#LightCoral");
    assert(is_plain_color("#LightCoral"@));
    reveal_strlit("#LightCyan");
    assert(is_plain_color("#LightCyan"@));
    reveal_strlit("#LightGoldenRodYellow");
    assert(is_plain_color("#LightGoldenRodYellow"@));
    reveal_strlit("#LightGray");
    assert(is_plain_color("#LightGray"@));
    reveal_strlit("#LightGrey");
    assert(is_plain_color("#LightGrey"@));
    reveal_strlit("#LightGreen");
    assert(is_plain_color("#LightGreen"@));
    reveal_strlit("#LightPink");
    assert(is_plain_color("#LightPink"@));
}

proof fn lemma_colors_are_plain_3()
    ensures
        forall|i: int| 75 <= i < 100 ==> is_plain_color(#[trigger] palette()[i]@),
{
    reveal_strlit("#LightSalmon");
    assert(is_plain_color("#LightSalmon"@));
    reveal_strlit("#LightSeaGreen");
    assert(is_plain_color("#LightSeaGreen"@));
    reveal_strlit("#LightSkyBlue");
    assert(is_plain_color("#LightSkyBlue"@));
    reveal_strlit("#LightSlateGray");
    assert(is_plain_color("#LightSlateGray"@));
    reveal_strlit("#LightSlateGrey");
    assert(is_plain_color("#LightSlateGrey"@));
    reveal_strlit("#LightSteelBlue");
    assert(is_plain_color("#LightSteelBlue"@));
    reveal_strlit("#LightYellow");
    assert(is_plain_color("#LightYellow"@));
    reveal_strlit("#Lime");
    assert(is_plain_color("#Lime"@));
    reveal_strlit("#LimeGreen");
    assert(is_plain_color("#LimeGreen"@));
    reveal_strlit("#Linen");
    assert(is_plain_color("#Linen"@));
    reveal_strlit("#Magenta");
    assert(is_plain_color("#Magenta"@));
    reveal_strlit("#Maroon");
    assert(is_plain_color("#Maroon"@));
    reveal_strlit("#MediumAquaMarine");
    assert(is_plain_color("#MediumAquaMarine"@));
    reveal_strlit("#MediumBlue");
    assert(is_plain_color("#MediumBlue"@));
    reveal_strlit("#MediumOrchid");
    assert(is_plain_color("#MediumOrchid"@));
    reveal_strlit("#MediumPurple");
    assert(is_plain_color("#MediumPurple"@));
    reveal_strlit("#MediumSeaGreen");
    assert(is_plain_color("#MediumSeaGreen"@));
    reveal_strlit("#MediumSlateBlue");
    assert(is_plain_color("#MediumSlateBlue"@));
    reveal_strlit("#MediumSpringGreen");
    assert(is_plain_color("#MediumSpringGreen"@));
    reveal_strlit("#MediumTurquoise");
    assert(is_plain_color("#MediumTurquoise"@));
    reveal_strlit("#MediumVioletRed");
    assert(is_plain_color("#MediumVioletRed"@));
    reveal_strlit("#MidnightBlue");
    assert(is_plain_color("#MidnightBlue"@));
    reveal_strlit("#MintCream");
    assert(is_plain_color("#MintCream"@));
    reveal_strlit("#MistyRose");
    assert(is_plain_color("#MistyRose"@));
    reveal_strlit("#Moccasin");
    assert(is_plain_color("#Moccasin"@));
}

proof fn lemma_colors_are_plain_4()
    ensures
        forall|i: int| 100 <= i < 125 ==> is_plain_color(#[trigger] palette()[i]@),
{
    reveal_strlit("#NavajoWhite");
    assert(is_plain_color("#NavajoWhite"@));
    reveal_strlit("#Navy");
    assert(is_plain_color("#Navy"@));
    reveal_strlit("#OldLace");
    assert(is_plain_color("#OldLace"@));
    reveal_strlit("#Olive");
    assert(is_plain_color("#Olive"@));
    reveal_strlit("#OliveDrab");
    assert(is_plain_color("#OliveDrab"@));
    reveal_strlit("#Orange");
    assert(is_plain_color("#Orange"@));
    reveal_strlit("#OrangeRed");
    assert(is_plain_color("#OrangeRed"@));
    reveal_strlit("#Orchid");
    assert(is_plain_color("#Orchid"@));
    reveal_strlit("#PaleGoldenRod");
    assert(is_plain_color("#PaleGoldenRod"@));
    reveal_strlit("#PaleGreen");
    assert(is_plain_color("#PaleGreen"@));
    reveal_strlit("#PaleTurquoise");
    assert(is_plain_color("#PaleTurquoise"@));
    reveal_strlit("#PaleVioletRed");
    assert(is_plain_color("#PaleVioletRed"@));
    reveal_strlit("#PapayaWhip");
    assert(is_plain_color("#PapayaWhip"@));
    reveal_strlit("#PeachPuff");
    assert(is_plain_color("#PeachPuff"@));
    reveal_strlit("#Peru");
    assert(is_plain_color("#Peru"@));
    reveal_strlit("#Pink");
    assert(is_plain_color("#Pink"@));
    reveal_strlit("#Plum");
    assert(is_plain_color("#Plum"@));
    reveal_strlit("#PowderBlue");
    assert(is_plain_color("#PowderBlue"@));
    reveal_strlit("#Purple");
    assert(is_plain_color("#Purple"@));
    reveal_strlit("#Red");
    assert(is_plain_color("#Red"@));
    reveal_strlit("#RosyBrown");
    assert(is_plain_color("#RosyBrown"@));
    reveal_strlit("#RoyalBlue");
    assert(is_plain_color("#RoyalBlue"@));
    reveal_strlit("#SaddleBrown");
    assert(is_plain_color("#SaddleBrown"@));
    reveal_strlit("#Salmon");
    assert(is_plain_color("#Salmon"@));
    reveal_strlit("#SandyBrown");
    assert(is_plain_color("#SandyBrown"@));
}

proof fn lemma_colors_are_plain_5()
    ensures
        forall|i: int| 125 <= i < 147 ==> is_plain_color(#[trigger] palette()[i]@),
{
    reveal_strlit("#SeaGreen");
    assert(is_plain_color("#SeaGreen"@));
    reveal_strlit("#SeaShell");
    assert(is_plain_color("#SeaShell"@));
    reveal_strlit("#Sienna");
    assert(is_plain_color("#Sienna"@));
    reveal_strlit("#Silver");
    assert(is_plain_color("#Silver"@));
    reveal_strlit("#SkyBlue");
    assert(is_plain_color("#SkyBlue"@));
    reveal_strlit("#SlateBlue");
    assert(is_plain_color("#SlateBlue"@));
    reveal_strlit("#SlateGray");
    assert(is_plain_color("#SlateGray"@));
    reveal_strlit("#SlateGrey");
    assert(is_plain_color("#SlateGrey"@));
    reveal_strlit("#Snow");
    assert(is_plain_color("#Snow"@));
    reveal_strlit("#SpringGreen");
    assert(is_plain_color("#SpringGreen"@));
    reveal_strlit("#SteelBlue");
    assert(is_plain_color("#SteelBlue"@));
    reveal_strlit("#Tan");
    assert(is_plain_color("#Tan"@));
    reveal_strlit("#Teal");
    assert(is_plain_color("#Teal"@));
    reveal_strlit("#Thistle");
    assert(is_plain_color("#Thistle"@));
    reveal_strlit("#Tomato");
    assert(is_plain_color("#Tomato"@));
    reveal_strlit("#Turquoise");
    assert(is_plain_color("#Turquoise"@));
    reveal_strlit("#Violet");
    assert(is_plain_color("#Violet"@));
    reveal_strlit("#Wheat");
    assert(is_plain_color("#Wheat"@));
    reveal_strlit("#White");
    assert(is_plain_color("#White"@));
    reveal_strlit("#WhiteSmoke");
    assert(is_plain_color("#WhiteSmoke"@));
    reveal_strlit("#Yellow");
    assert(is_plain_color("#Yellow"@));
    reveal_strlit("#YellowGreen");
    assert(is_plain_color("#YellowGreen"@));
}

/// No color of the palette holds a hyphen, an `@` or a line break.
pub proof fn lemma_palette_colors_are_plain()
    ensures
        forall|i: int| 0 <= i < palette().len() ==> is_plain_color(#[trigger] palette()[i]@),
{
    lemma_colors_are_plain_0();
    lemma_colors_are_plain_1();
    lemma_colors_are_plain_2();
    lemma_colors_are_plain_3();
    lemma_colors_are_plain_4();
    lemma_colors_are_plain_5();
}

} // verus!
