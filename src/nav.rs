use vstd::prelude::*;

verus! {

/// The pages of the navigation bar.
#[derive(Clone, Copy, Default, Debug, PartialEq, Eq, Structural)]
pub enum NavPage {
    #[default]
    Pomodoro,
    Settings,
}

impl NavPage {
    /// The localization key of the page's title.
    pub fn title(&self) -> (r: String)
        ensures
            r@ == (match self {
                NavPage::Pomodoro => "pomodoro"@,
                NavPage::Settings => "settings"@,
            }),
    {
        match self {
            NavPage::Pomodoro => String::from_str("pomodoro"),
            NavPage::Settings => String::from_str("settings"),
        }
    }

    /// Every page, in the order the navigation bar lists them.
    pub fn all() -> (r: &'static [NavPage])
        ensures
            r@ == seq![NavPage::Pomodoro, NavPage::Settings],
    {
        let r: &'static [NavPage] = &[NavPage::Pomodoro, NavPage::Settings];
        assert(r@ =~= seq![NavPage::Pomodoro, NavPage::Settings]);
        r
    }
}

} // verus!
