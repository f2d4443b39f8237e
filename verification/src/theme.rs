//! Colour themes: six built-in palettes and their lookup by name.

use crate::text::{all_ascii, ascii_lower_char, lowercase_of, str_eq, to_lowercase};
use vstd::prelude::*;
use vstd::string::*;

verus! {

/// A 24-bit terminal colour.
#[derive(Clone, Copy, Debug, PartialEq, Eq, Structural)]
pub struct Rgb {
    pub r: u8,
    pub g: u8,
    pub b: u8,
}

/// The built-in themes.
#[derive(Clone, Copy, Debug, PartialEq, Eq, Structural)]
pub enum ThemeId {
    TokyoNight,
    Catppuccin,
    Gruvbox,
    Nord,
    Dracula,
    Everforest,
}

/// A colour theme: background, foreground, border, four accents, and the
/// gradient palette used by the visualizations.
#[derive(Clone, Debug)]
pub struct Theme {
    pub name: &'static str,
    pub bg: Rgb,
    pub fg: Rgb,
    pub border: Rgb,
    pub accent1: Rgb,
    pub accent2: Rgb,
    pub accent3: Rgb,
    pub accent4: Rgb,
    pub accents: Vec<Rgb>,
}

/// The configuration name of a built-in theme.
pub open spec fn theme_name(id: ThemeId) -> Seq<char> {
    match id {
        ThemeId::TokyoNight => "tokyo_night"@,
        ThemeId::Catppuccin => "catppuccin"@,
        ThemeId::Gruvbox => "gruvbox"@,
        ThemeId::Nord => "nord"@,
        ThemeId::Dracula => "dracula"@,
        ThemeId::Everforest => "everforest"@,
    }
}

/// `t` holds exactly the palette of the built-in theme `id`.
pub open spec fn is_palette(t: Theme, id: ThemeId) -> bool {
    &&& t.name@ == theme_name(id)
    &&& match id {
        ThemeId::TokyoNight => {
            &&& t.bg == Rgb { r: 26, g: 27, b: 38 }
            &&& t.fg == Rgb { r: 169, g: 177, b: 214 }
            &&& t.border == Rgb { r: 59, g: 66, b: 97 }
            &&& t.accent1 == Rgb { r: 122, g: 162, b: 247 }
            &&& t.accent2 == Rgb { r: 125, g: 207, b: 255 }
            &&& t.accent3 == Rgb { r: 187, g: 154, b: 247 }
            &&& t.accent4 == Rgb { r: 247, g: 118, b: 142 }
            &&& t.accents@ == seq![Rgb { r: 122, g: 162, b: 247 }, Rgb { r: 125, g: 207, b: 255 }, Rgb { r: 187, g: 154, b: 247 }, Rgb { r: 247, g: 118, b: 142 }, Rgb { r: 255, g: 158, b: 100 }, Rgb { r: 158, g: 206, b: 106 }]
        },
        ThemeId::Catppuccin => {
            &&& t.bg == Rgb { r: 30, g: 30, b: 46 }
            &&& t.fg == Rgb { r: 205, g: 214, b: 244 }
            &&& t.border == Rgb { r: 88, g: 91, b: 112 }
            &&& t.accent1 == Rgb { r: 137, g: 180, b: 250 }
            &&& t.accent2 == Rgb { r: 137, g: 220, b: 235 }
            &&& t.accent3 == Rgb { r: 203, g: 166, b: 247 }
            &&& t.accent4 == Rgb { r: 243, g: 139, b: 168 }
            &&& t.accents@ == seq![Rgb { r: 137, g: 180, b: 250 }, Rgb { r: 137, g: 220, b: 235 }, Rgb { r: 166, g: 227, b: 161 }, Rgb { r: 249, g: 226, b: 175 }, Rgb { r: 250, g: 179, b: 135 }, Rgb { r: 203, g: 166, b: 247 }]
        },
        ThemeId::Gruvbox => {
            &&& t.bg == Rgb { r: 40, g: 40, b: 40 }
            &&& t.fg == Rgb { r: 235, g: 219, b: 178 }
            &&& t.border == Rgb { r: 102, g: 92, b: 84 }
            &&& t.accent1 == Rgb { r: 69, g: 133, b: 136 }
            &&& t.accent2 == Rgb { r: 142, g: 192, b: 124 }
            &&& t.accent3 == Rgb { r: 215, g: 153, b: 33 }
            &&& t.accent4 == Rgb { r: 204, g: 36, b: 29 }
            &&& t.accents@ == seq![Rgb { r: 69, g: 133, b: 136 }, Rgb { r: 142, g: 192, b: 124 }, Rgb { r: 152, g: 151, b: 26 }, Rgb { r: 215, g: 153, b: 33 }, Rgb { r: 214, g: 93, b: 14 }, Rgb { r: 177, g: 98, b: 134 }]
        },
        ThemeId::Nord => {
            &&& t.bg == Rgb { r: 46, g: 52, b: 64 }
            &&& t.fg == Rgb { r: 236, g: 239, b: 244 }
            &&& t.border == Rgb { r: 76, g: 86, b: 106 }
            &&& t.accent1 == Rgb { r: 129, g: 161, b: 193 }
            &&& t.accent2 == Rgb { r: 136, g: 192, b: 208 }
            &&& t.accent3 == Rgb { r: 143, g: 188, b: 187 }
            &&& t.accent4 == Rgb { r: 94, g: 129, b: 172 }
            &&& t.accents@ == seq![Rgb { r: 136, g: 192, b: 208 }, Rgb { r: 129, g: 161, b: 193 }, Rgb { r: 143, g: 188, b: 187 }, Rgb { r: 94, g: 129, b: 172 }, Rgb { r: 191, g: 97, b: 106 }, Rgb { r: 208, g: 135, b: 112 }]
        },
        ThemeId::Dracula => {
            &&& t.bg == Rgb { r: 40, g: 42, b: 54 }
            &&& t.fg == Rgb { r: 248, g: 248, b: 242 }
            &&& t.border == Rgb { r: 98, g: 114, b: 164 }
            &&& t.accent1 == Rgb { r: 139, g: 233, b: 253 }
            &&& t.accent2 == Rgb { r: 80, g: 250, b: 123 }
            &&& t.accent3 == Rgb { r: 189, g: 147, b: 249 }
            &&& t.accent4 == Rgb { r: 255, g: 121, b: 198 }
            &&& t.accents@ == seq![Rgb { r: 139, g: 233, b: 253 }, Rgb { r: 80, g: 250, b: 123 }, Rgb { r: 255, g: 184, b: 108 }, Rgb { r: 255, g: 121, b: 198 }, Rgb { r: 189, g: 147, b: 249 }, Rgb { r: 255, g: 85, b: 85 }]
        },
        ThemeId::Everforest => {
            &&& t.bg == Rgb { r: 43, g: 51, b: 57 }
            &&& t.fg == Rgb { r: 211, g: 198, b: 170 }
            &&& t.border == Rgb { r: 79, g: 90, b: 97 }
            &&& t.accent1 == Rgb { r: 167, g: 192, b: 128 }
            &&& t.accent2 == Rgb { r: 127, g: 187, b: 179 }
            &&& t.accent3 == Rgb { r: 219, g: 188, b: 127 }
            &&& t.accent4 == Rgb { r: 230, g: 126, b: 128 }
            &&& t.accents@ == seq![Rgb { r: 167, g: 192, b: 128 }, Rgb { r: 127, g: 187, b: 179 }, Rgb { r: 219, g: 188, b: 127 }, Rgb { r: 230, g: 152, b: 117 }, Rgb { r: 211, g: 155, b: 182 }, Rgb { r: 230, g: 126, b: 128 }]
        },
    }
}

/// The theme selected by an already lower-cased name; unknown names select Tokyo Night.
pub open spec fn theme_for(lower: Seq<char>) -> ThemeId {
    if lower == "catppuccin"@ {
        ThemeId::Catppuccin
    }     else if lower == "gruvbox"@ {
        ThemeId::Gruvbox
    }     else if lower == "nord"@ {
        ThemeId::Nord
    }     else if lower == "dracula"@ {
        ThemeId::Dracula
    }     else if lower == "everforest"@ {
        ThemeId::Everforest
    } else {
        ThemeId::TokyoNight
    }
}

impl Theme {
    /// The tokyo_night theme.
    pub fn new_tokyo_night() -> (t: Self)
        ensures
            is_palette(t, ThemeId::TokyoNight),
    {
        let mut accents: Vec<Rgb> = Vec::new();
        accents.push(Rgb { r: 122, g: 162, b: 247 });
        accents.push(Rgb { r: 125, g: 207, b: 255 });
        accents.push(Rgb { r: 187, g: 154, b: 247 });
        accents.push(Rgb { r: 247, g: 118, b: 142 });
        accents.push(Rgb { r: 255, g: 158, b: 100 });
        accents.push(Rgb { r: 158, g: 206, b: 106 });
        assert(accents@ =~= seq![Rgb { r: 122, g: 162, b: 247 }, Rgb { r: 125, g: 207, b: 255 }, Rgb { r: 187, g: 154, b: 247 }, Rgb { r: 247, g: 118, b: 142 }, Rgb { r: 255, g: 158, b: 100 }, Rgb { r: 158, g: 206, b: 106 }]);
        Theme {
            name: "tokyo_night",
            bg: Rgb { r: 26, g: 27, b: 38 },
            fg: Rgb { r: 169, g: 177, b: 214 },
            border: Rgb { r: 59, g: 66, b: 97 },
            accent1: Rgb { r: 122, g: 162, b: 247 },
            accent2: Rgb { r: 125, g: 207, b: 255 },
            accent3: Rgb { r: 187, g: 154, b: 247 },
            accent4: Rgb { r: 247, g: 118, b: 142 },
            accents,
        }
    }

    /// The catppuccin theme.
    pub fn new_catppuccin() -> (t: Self)
        ensures
            is_palette(t, ThemeId::Catppuccin),
    {
        let mut accents: Vec<Rgb> = Vec::new();
        accents.push(Rgb { r: 137, g: 180, b: 250 });
        accents.push(Rgb { r: 137, g: 220, b: 235 });
        accents.push(Rgb { r: 166, g: 227, b: 161 });
        accents.push(Rgb { r: 249, g: 226, b: 175 });
        accents.push(Rgb { r: 250, g: 179, b: 135 });
        accents.push(Rgb { r: 203, g: 166, b: 247 });
        assert(accents@ =~= seq![Rgb { r: 137, g: 180, b: 250 }, Rgb { r: 137, g: 220, b: 235 }, Rgb { r: 166, g: 227, b: 161 }, Rgb { r: 249, g: 226, b: 175 }, Rgb { r: 250, g: 179, b: 135 }, Rgb { r: 203, g: 166, b: 247 }]);
        Theme {
            name: "catppuccin",
            bg: Rgb { r: 30, g: 30, b: 46 },
            fg: Rgb { r: 205, g: 214, b: 244 },
            border: Rgb { r: 88, g: 91, b: 112 },
            accent1: Rgb { r: 137, g: 180, b: 250 },
            accent2: Rgb { r: 137, g: 220, b: 235 },
            accent3: Rgb { r: 203, g: 166, b: 247 },
            accent4: Rgb { r: 243, g: 139, b: 168 },
            accents,
        }
    }

    /// The gruvbox theme.
    pub fn new_gruvbox() -> (t: Self)
        ensures
            is_palette(t, ThemeId::Gruvbox),
    {
        let mut accents: Vec<Rgb> = Vec::new();
        accents.push(Rgb { r: 69, g: 133, b: 136 });
        accents.push(Rgb { r: 142, g: 192, b: 124 });
        accents.push(Rgb { r: 152, g: 151, b: 26 });
        accents.push(Rgb { r: 215, g: 153, b: 33 });
        accents.push(Rgb { r: 214, g: 93, b: 14 });
        accents.push(Rgb { r: 177, g: 98, b: 134 });
        assert(accents@ =~= seq![Rgb { r: 69, g: 133, b: 136 }, Rgb { r: 142, g: 192, b: 124 }, Rgb { r: 152, g: 151, b: 26 }, Rgb { r: 215, g: 153, b: 33 }, Rgb { r: 214, g: 93, b: 14 }, Rgb { r: 177, g: 98, b: 134 }]);
        Theme {
            name: "gruvbox",
            bg: Rgb { r: 40, g: 40, b: 40 },
            fg: Rgb { r: 235, g: 219, b: 178 },
            border: Rgb { r: 102, g: 92, b: 84 },
            accent1: Rgb { r: 69, g: 133, b: 136 },
            accent2: Rgb { r: 142, g: 192, b: 124 },
            accent3: Rgb { r: 215, g: 153, b: 33 },
            accent4: Rgb { r: 204, g: 36, b: 29 },
            accents,
        }
    }

    /// The nord theme.
    pub fn new_nord() -> (t: Self)
        ensures
            is_palette(t, ThemeId::Nord),
    {
        let mut accents: Vec<Rgb> = Vec::new();
        accents.push(Rgb { r: 136, g: 192, b: 208 });
        accents.push(Rgb { r: 129, g: 161, b: 193 });
        accents.push(Rgb { r: 143, g: 188, b: 187 });
        accents.push(Rgb { r: 94, g: 129, b: 172 });
        accents.push(Rgb { r: 191, g: 97, b: 106 });
        accents.push(Rgb { r: 208, g: 135, b: 112 });
        assert(accents@ =~= seq![Rgb { r: 136, g: 192, b: 208 }, Rgb { r: 129, g: 161, b: 193 }, Rgb { r: 143, g: 188, b: 187 }, Rgb { r: 94, g: 129, b: 172 }, Rgb { r: 191, g: 97, b: 106 }, Rgb { r: 208, g: 135, b: 112 }]);
        Theme {
            name: "nord",
            bg: Rgb { r: 46, g: 52, b: 64 },
            fg: Rgb { r: 236, g: 239, b: 244 },
            border: Rgb { r: 76, g: 86, b: 106 },
            accent1: Rgb { r: 129, g: 161, b: 193 },
            accent2: Rgb { r: 136, g: 192, b: 208 },
            accent3: Rgb { r: 143, g: 188, b: 187 },
            accent4: Rgb { r: 94, g: 129, b: 172 },
            accents,
        }
    }

    /// The dracula theme.
    pub fn new_dracula() -> (t: Self)
        ensures
            is_palette(t, ThemeId::Dracula),
    {
        let mut accents: Vec<Rgb> = Vec::new();
        accents.push(Rgb { r: 139, g: 233, b: 253 });
        accents.push(Rgb { r: 80, g: 250, b: 123 });
        accents.push(Rgb { r: 255, g: 184, b: 108 });
        accents.push(Rgb { r: 255, g: 121, b: 198 });
        accents.push(Rgb { r: 189, g: 147, b: 249 });
        accents.push(Rgb { r: 255, g: 85, b: 85 });
        assert(accents@ =~= seq![Rgb { r: 139, g: 233, b: 253 }, Rgb { r: 80, g: 250, b: 123 }, Rgb { r: 255, g: 184, b: 108 }, Rgb { r: 255, g: 121, b: 198 }, Rgb { r: 189, g: 147, b: 249 }, Rgb { r: 255, g: 85, b: 85 }]);
        Theme {
            name: "dracula",
            bg: Rgb { r: 40, g: 42, b: 54 },
            fg: Rgb { r: 248, g: 248, b: 242 },
            border: Rgb { r: 98, g: 114, b: 164 },
            accent1: Rgb { r: 139, g: 233, b: 253 },
            accent2: Rgb { r: 80, g: 250, b: 123 },
            accent3: Rgb { r: 189, g: 147, b: 249 },
            accent4: Rgb { r: 255, g: 121, b: 198 },
            accents,
        }
    }

    /// The everforest theme.
    pub fn new_everforest() -> (t: Self)
        ensures
            is_palette(t, ThemeId::Everforest),
    {
        let mut accents: Vec<Rgb> = Vec::new();
        accents.push(Rgb { r: 167, g: 192, b: 128 });
        accents.push(Rgb { r: 127, g: 187, b: 179 });
        accents.push(Rgb { r: 219, g: 188, b: 127 });
        accents.push(Rgb { r: 230, g: 152, b: 117 });
        accents.push(Rgb { r: 211, g: 155, b: 182 });
        accents.push(Rgb { r: 230, g: 126, b: 128 });
        assert(accents@ =~= seq![Rgb { r: 167, g: 192, b: 128 }, Rgb { r: 127, g: 187, b: 179 }, Rgb { r: 219, g: 188, b: 127 }, Rgb { r: 230, g: 152, b: 117 }, Rgb { r: 211, g: 155, b: 182 }, Rgb { r: 230, g: 126, b: 128 }]);
        Theme {
            name: "everforest",
            bg: Rgb { r: 43, g: 51, b: 57 },
            fg: Rgb { r: 211, g: 198, b: 170 },
            border: Rgb { r: 79, g: 90, b: 97 },
            accent1: Rgb { r: 167, g: 192, b: 128 },
            accent2: Rgb { r: 127, g: 187, b: 179 },
            accent3: Rgb { r: 219, g: 188, b: 127 },
            accent4: Rgb { r: 230, g: 126, b: 128 },
            accents,
        }
    }

    /// The built-in theme `id`.
    pub fn by_id(id: ThemeId) -> (t: Self)
        ensures
            is_palette(t, id),
            t.bg != t.fg,
    {
        match id {
            ThemeId::TokyoNight => Self::new_tokyo_night(),
            ThemeId::Catppuccin => Self::new_catppuccin(),
            ThemeId::Gruvbox => Self::new_gruvbox(),
            ThemeId::Nord => Self::new_nord(),
            ThemeId::Dracula => Self::new_dracula(),
            ThemeId::Everforest => Self::new_everforest(),
        }
    }

    /// The theme named by `lower`, a name that is already lower-cased; unknown
    /// names give Tokyo Night.
    pub fn for_lowercase_name(lower: &str) -> (t: Self)
        ensures
            is_palette(t, theme_for(lower@)),
    {
        if str_eq(lower, "catppuccin") {
            Self::new_catppuccin()
        }         else if str_eq(lower, "gruvbox") {
            Self::new_gruvbox()
        }         else if str_eq(lower, "nord") {
            Self::new_nord()
        }         else if str_eq(lower, "dracula") {
            Self::new_dracula()
        }         else if str_eq(lower, "everforest") {
            Self::new_everforest()
        } else {
            Self::new_tokyo_night()
        }
    }

    /// The theme whose name matches `name` ignoring case; unknown names give
    /// Tokyo Night.
    pub fn from_name(name: &str) -> (t: Self)
        ensures
            is_palette(t, theme_for(lowercase_of(name@))),
            all_ascii(name@) ==> is_palette(t, theme_for(name@.map_values(|c: char| ascii_lower_char(c)))),
    {
        let lower = to_lowercase(name);
        Self::for_lowercase_name(lower.as_str())
    }
}

/// The names of the built-in themes, in menu order.
pub fn theme_names() -> (v: Vec<String>)
    ensures
        v@.len() == 6,
        v@[0]@ == theme_name(ThemeId::TokyoNight),
        v@[1]@ == theme_name(ThemeId::Catppuccin),
        v@[2]@ == theme_name(ThemeId::Gruvbox),
        v@[3]@ == theme_name(ThemeId::Nord),
        v@[4]@ == theme_name(ThemeId::Dracula),
        v@[5]@ == theme_name(ThemeId::Everforest),
{
    let mut v: Vec<String> = Vec::new();
    v.push(String::from_str("tokyo_night"));
    v.push(String::from_str("catppuccin"));
    v.push(String::from_str("gruvbox"));
    v.push(String::from_str("nord"));
    v.push(String::from_str("dracula"));
    v.push(String::from_str("everforest"));
    v
}

/// Looking a theme up by its own name gives that theme back: every built-in
/// name is ASCII and lower-case, and selects its theme.
pub proof fn lemma_theme_name_round_trip(id: ThemeId)
    ensures
        all_ascii(theme_name(id)),
        theme_name(id).map_values(|c: char| ascii_lower_char(c)) == theme_name(id),
        theme_for(theme_name(id)) == id,
{
    reveal_strlit("tokyo_night");
    reveal_strlit("catppuccin");
    reveal_strlit("gruvbox");
    reveal_strlit("nord");
    reveal_strlit("dracula");
    reveal_strlit("everforest");
    assert("tokyo_night"@.len() == 11 && "tokyo_night"@[0] == 't');
    assert("catppuccin"@.len() == 10 && "catppuccin"@[0] == 'c');
    assert("gruvbox"@.len() == 7 && "gruvbox"@[0] == 'g');
    assert("nord"@.len() == 4 && "nord"@[0] == 'n');
    assert("dracula"@.len() == 7 && "dracula"@[0] == 'd');
    assert("everforest"@.len() == 10 && "everforest"@[0] == 'e');
    let n = theme_name(id);
    assert(n.map_values(|c: char| ascii_lower_char(c)) =~= n);
}

/// Every built-in theme is a dark theme with light text: each channel of the
/// background is at most 64 and each channel of the foreground at least 160,
/// so text always stands out from the background.
pub proof fn lemma_palette_contrast(t: Theme, id: ThemeId)
    requires
        is_palette(t, id),
    ensures
        t.bg.r <= 64 && t.bg.g <= 64 && t.bg.b <= 64,
        t.fg.r >= 160 && t.fg.g >= 160 && t.fg.b >= 160,
        t.bg != t.fg,
{
}

} // verus!
