//! The fonts of the popup.
use vstd::prelude::*;

verus! {

/// A font of the system that the popup can use.
#[derive(Clone, Copy, PartialEq, Eq, Structural, Debug)]
pub enum SystemFont {
    Segoe,
    YaHei,
    SimHei,
}

/// The name under which a font is registered.
pub open spec fn font_name(font: SystemFont) -> Seq<char> {
    match font {
        SystemFont::Segoe => "segoeui"@,
        SystemFont::YaHei => "msyh"@,
        SystemFont::SimHei => "simhei"@,
    }
}

impl SystemFont {
    /// The name under which the font is registered.
    pub fn name(self) -> (r: &'static str)
        ensures
            r@ == font_name(self),
    {
        match self {
            SystemFont::Segoe => "segoeui",
            SystemFont::YaHei => "msyh",
            SystemFont::SimHei => "simhei",
        }
    }

    /// The file that holds the font.
    pub fn path(self) -> (r: &'static str)
        ensures
            r@ == (match self {
                SystemFont::Segoe => "C:\\Windows\\Fonts\\segoeui.ttf"@,
                SystemFont::YaHei => "C:\\Windows\\Fonts\\msyh.ttf"@,
                SystemFont::SimHei => "C:\\Windows\\Fonts\\simhei.ttf"@,
            }),
    {
        match self {
            SystemFont::Segoe => "C:\\Windows\\Fonts\\segoeui.ttf",
            SystemFont::YaHei => "C:\\Windows\\Fonts\\msyh.ttf",
            SystemFont::SimHei => "C:\\Windows\\Fonts\\simhei.ttf",
        }
    }
}

/// The fonts that have been loaded.
#[derive(Clone, Copy, PartialEq, Eq, Structural, Debug)]
pub struct LoadedFonts {
    pub segoe: bool,
    pub yahei: bool,
    pub simhei: bool,
}

impl LoadedFonts {
    /// Nothing loaded yet.
    pub fn none() -> (r: Self)
        ensures
            r == (LoadedFonts { segoe: false, yahei: false, simhei: false }),
    {
        LoadedFonts { segoe: false, yahei: false, simhei: false }
    }

    /// Notes whether a font could be loaded.
    pub fn note(&mut self, font: SystemFont, loaded: bool)
        ensures
            *final(self) == noted(*old(self), font, loaded),
    {
        match font {
            SystemFont::Segoe => {
                self.segoe = loaded;
            },
            SystemFont::YaHei => {
                self.yahei = loaded;
            },
            SystemFont::SimHei => {
                self.simhei = loaded;
            },
        }
    }

    /// The font to try once `tried` was tried, or first of all where none was.
    pub fn next_font(self, tried: Option<SystemFont>) -> (r: Option<SystemFont>)
        ensures
            r == tried_after(tried, self),
    {
        match tried {
            None => Some(SystemFont::Segoe),
            Some(SystemFont::Segoe) => Some(SystemFont::YaHei),
            Some(SystemFont::YaHei) => if self.yahei {
                None
            } else {
                Some(SystemFont::SimHei)
            },
            Some(SystemFont::SimHei) => None,
        }
    }
}

/// `fonts` once it is known whether `font` could be loaded.
pub open spec fn noted(fonts: LoadedFonts, font: SystemFont, loaded: bool) -> LoadedFonts {
    match font {
        SystemFont::Segoe => LoadedFonts { segoe: loaded, ..fonts },
        SystemFont::YaHei => LoadedFonts { yahei: loaded, ..fonts },
        SystemFont::SimHei => LoadedFonts { simhei: loaded, ..fonts },
    }
}

/// The order in which the fonts are tried: the western one, then the first
/// Chinese one, then the second only where the first could not be loaded.
pub open spec fn tried_after(tried: Option<SystemFont>, fonts: LoadedFonts) -> Option<SystemFont> {
    match tried {
        None => Some(SystemFont::Segoe),
        Some(SystemFont::Segoe) => Some(SystemFont::YaHei),
        Some(SystemFont::YaHei) if !fonts.yahei => Some(SystemFont::SimHei),
        _ => None,
    }
}

/// How many fonts can follow `tried`.
pub open spec fn fonts_behind(tried: Option<SystemFont>) -> nat {
    match tried {
        None => 3,
        Some(SystemFont::Segoe) => 2,
        Some(SystemFont::YaHei) => 1,
        Some(SystemFont::SimHei) => 0,
    }
}

/// What is loaded in the end when each font that comes after `tried` is
/// tried in turn, and `readable` says which of them can be loaded.
pub open spec fn fonts_in_the_end(
    fonts: LoadedFonts,
    tried: Option<SystemFont>,
    readable: spec_fn(SystemFont) -> bool,
) -> LoadedFonts
    decreases fonts_behind(tried),
{
    match tried_after(tried, fonts) {
        Some(font) => fonts_in_the_end(noted(fonts, font, readable(font)), Some(font), readable),
        None => fonts,
    }
}

/// The texts of a list of strings.
pub open spec fn texts_of(v: Seq<String>) -> Seq<Seq<char>> {
    v.map_values(|s: String| s@)
}

/// The fonts of a family in the order in which they are tried: the western
/// font first, then the fonts that were there, then one Chinese font.
pub open spec fn family_of(former: Seq<Seq<char>>, fonts: LoadedFonts) -> Seq<Seq<char>> {
    let western = if fonts.segoe {
        seq![font_name(SystemFont::Segoe)]
    } else {
        Seq::empty()
    };
    let chinese = if fonts.yahei {
        seq![font_name(SystemFont::YaHei)]
    } else if fonts.simhei {
        seq![font_name(SystemFont::SimHei)]
    } else {
        Seq::empty()
    };
    western + former + chinese
}

/// Adds the loaded fonts to a family.
pub fn extend_family(family: &mut Vec<String>, fonts: LoadedFonts)
    ensures
        texts_of(final(family)@) == family_of(texts_of(old(family)@), fonts),
{
    if fonts.segoe {
        family.insert(0, SystemFont::Segoe.name().to_owned());
    }
    if fonts.yahei {
        family.push(SystemFont::YaHei.name().to_owned());
    } else if fonts.simhei {
        family.push(SystemFont::SimHei.name().to_owned());
    }
    assert(texts_of(family@) =~= family_of(texts_of(old(family)@), fonts));
}

/// Trying the fonts in their order loads the western font and the first
/// Chinese font wherever they can be loaded, and the second Chinese font
/// exactly where it can be and the first cannot: never both.
pub proof fn law_one_chinese_font(readable: spec_fn(SystemFont) -> bool)
    ensures
        ({
            let none = LoadedFonts { segoe: false, yahei: false, simhei: false };
            let fonts = fonts_in_the_end(none, None, readable);
            &&& fonts.segoe == readable(SystemFont::Segoe)
            &&& fonts.yahei == readable(SystemFont::YaHei)
            &&& fonts.simhei == (readable(SystemFont::SimHei) && !readable(SystemFont::YaHei))
            &&& !(fonts.yahei && fonts.simhei)
        }),
{
    reveal_with_fuel(fonts_in_the_end, 4);
}

/// No font that was in a family leaves it, nor changes its place among them.
pub proof fn law_family_keeps_former_fonts(former: Seq<Seq<char>>, fonts: LoadedFonts)
    ensures
        exists|at: int|
            0 <= at <= 1 && #[trigger] family_of(former, fonts).subrange(at, at + former.len())
                == former,
{
    let at: int = if fonts.segoe {
        1
    } else {
        0
    };
    assert(family_of(former, fonts).subrange(at, at + former.len()) =~= former);
}

/// The western font comes before the former ones, one Chinese font behind them,
/// the first of the two where it is loaded; and nothing else joins.
pub proof fn law_family_order(former: Seq<Seq<char>>, fonts: LoadedFonts)
    ensures
        ({
            let family = family_of(former, fonts);
            let at: int = if fonts.segoe {
                1
            } else {
                0
            };
            &&& fonts.segoe ==> family[0] == "segoeui"@
            &&& family.subrange(at, at + former.len()) == former
            &&& fonts.yahei ==> family.len() == at + former.len() + 1 && family.last() == "msyh"@
            &&& fonts.simhei && !fonts.yahei ==> family.len() == at + former.len() + 1
                && family.last() == "simhei"@
            &&& !fonts.simhei && !fonts.yahei ==> family.len() == at + former.len()
        }),
{
    let at: int = if fonts.segoe {
        1
    } else {
        0
    };
    assert(family_of(former, fonts).subrange(at, at + former.len()) =~= former);
}

} // verus!
