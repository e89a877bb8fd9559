use vstd::prelude::*;

verus! {

/// The colour themes the application offers.
#[derive(Debug, Clone, Copy, PartialEq, Eq)]
pub enum ThemeChoice {
    CatppuccinLatte,
    TokyoNightLight,
    CatppuccinMocha,
    TokyoNightStorm,
}

/// The name under which a theme is stored in the settings.
pub open spec fn theme_name(t: ThemeChoice) -> Seq<char> {
    match t {
        ThemeChoice::CatppuccinLatte => "CatppuccinLatte"@,
        ThemeChoice::TokyoNightLight => "TokyoNightLight"@,
        ThemeChoice::CatppuccinMocha => "CatppuccinMocha"@,
        ThemeChoice::TokyoNightStorm => "TokyoNightStorm"@,
    }
}

/// The theme stored under a name; an unknown name gives the dark default.
pub open spec fn theme_named(name: Seq<char>) -> ThemeChoice {
    if name == "CatppuccinLatte"@ {
        ThemeChoice::CatppuccinLatte
    } else if name == "TokyoNightLight"@ {
        ThemeChoice::TokyoNightLight
    } else if name == "TokyoNightStorm"@ {
        ThemeChoice::TokyoNightStorm
    } else {
        ThemeChoice::CatppuccinMocha
    }
}

impl ThemeChoice {
    /// The stored name of this theme.
    pub fn name(&self) -> (r: String)
        ensures
            r@ == theme_name(*self),
    {
        match self {
            ThemeChoice::CatppuccinLatte => "CatppuccinLatte".to_owned(),
            ThemeChoice::TokyoNightLight => "TokyoNightLight".to_owned(),
            ThemeChoice::CatppuccinMocha => "CatppuccinMocha".to_owned(),
            ThemeChoice::TokyoNightStorm => "TokyoNightStorm".to_owned(),
        }
    }

    /// The theme stored under `name`, the dark default when none is.
    pub fn from_name(name: &String) -> (r: ThemeChoice)
        ensures
            r == theme_named(name@),
    {
        if *name == "CatppuccinLatte".to_owned() {
            ThemeChoice::CatppuccinLatte
        } else if *name == "TokyoNightLight".to_owned() {
            ThemeChoice::TokyoNightLight
        } else if *name == "TokyoNightStorm".to_owned() {
            ThemeChoice::TokyoNightStorm
        } else {
            ThemeChoice::CatppuccinMocha
        }
    }
}

/// Storing a theme under its name and reading it back gives the same theme.
pub proof fn lemma_theme_name_round_trip(t: ThemeChoice)
    ensures
        theme_named(theme_name(t)) == t,
{
    reveal_strlit("CatppuccinLatte");
    reveal_strlit("TokyoNightLight");
    reveal_strlit("CatppuccinMocha");
    reveal_strlit("TokyoNightStorm");
    let latte = "CatppuccinLatte"@;
    let light = "TokyoNightLight"@;
    let mocha = "CatppuccinMocha"@;
    let storm = "TokyoNightStorm"@;
    assert(latte[0] != light[0]);
    assert(latte[10] != mocha[10]);
    assert(mocha[0] != light[0]);
    assert(mocha[0] != storm[0]);
    assert(light[10] != storm[10]);
    assert(latte[0] != storm[0]);
}

/// Settings kept between runs: where results are written and the theme.
#[derive(Debug, Clone)]
pub struct AppConfig {
    pub output_path: String,
    pub theme: String,
}

impl Default for AppConfig {
    fn default() -> (r: Self)
        ensures
            r.output_path@ == Seq::<char>::empty(),
            r.theme@ == Seq::<char>::empty(),
    {
        AppConfig { output_path: String::new(), theme: String::new() }
    }
}

impl AppConfig {
    /// The theme these settings select.
    pub fn theme_choice(&self) -> (r: ThemeChoice)
        ensures
            r == theme_named(self.theme@),
    {
        ThemeChoice::from_name(&self.theme)
    }

    /// Selects a theme, keeping the output directory.
    pub fn set_theme(&mut self, theme: ThemeChoice)
        ensures
            final(self).theme@ == theme_name(theme),
            final(self).output_path == old(self).output_path,
    {
        self.theme = theme.name();
    }

    /// Whether an output directory has yet to be chosen.
    pub fn needs_output_dir(&self) -> (r: bool)
        ensures
            r == (self.output_path@.len() == 0),
    {
        self.output_path.as_str().is_empty()
    }
}

} // verus!
