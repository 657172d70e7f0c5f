use vstd::prelude::*;

verus! {

/// Key under which the preference is kept in persistent key-value storage.
pub const STORAGE_KEY: &'static str = "dark";

/// The text that storage holds for a preference.
pub open spec fn stored_text(prefers_dark: bool) -> Seq<char> {
    if prefers_dark {
        "true"@
    } else {
        "false"@
    }
}

/// The color scheme that the page advertises for a preference.
pub open spec fn scheme_text(prefers_dark: bool) -> Seq<char> {
    if prefers_dark {
        "dark"@
    } else {
        "light"@
    }
}

/// The state of the toggle as a value: the preference, and what was last
/// written to storage for it.
pub struct PrefView {
    pub prefers_dark: bool,
    pub persisted: Seq<char>,
}

/// The state after one activation of the toggle: the preference flipped and
/// its new text written.
pub open spec fn toggled(v: PrefView) -> PrefView {
    PrefView { prefers_dark: !v.prefers_dark, persisted: stored_text(!v.prefers_dark) }
}

/// The preference that a stored value stands for: exactly the text `true`
/// means dark; any other text, or no value at all, means light.
pub fn prefers_dark_from_stored(stored: Option<&str>) -> (r: bool)
    ensures
        stored is None ==> !r,
        stored is Some ==> (r <==> stored.unwrap()@ == "true"@),
{
    match stored {
        Some(s) => s.to_owned() == "true".to_owned(),
        None => false,
    }
}

/// The text written to storage for a preference.
pub fn stored_value(prefers_dark: bool) -> (r: String)
    ensures
        r@ == stored_text(prefers_dark),
{
    if prefers_dark {
        "true".to_owned()
    } else {
        "false".to_owned()
    }
}

/// The dark-mode toggle: a preference and the value last written to storage,
/// which agree at all times.
pub struct DarkModeToggle {
    prefers_dark: bool,
    persisted: String,
}

impl View for DarkModeToggle {
    type V = PrefView;

    closed spec fn view(&self) -> PrefView {
        PrefView { prefers_dark: self.prefers_dark, persisted: self.persisted@ }
    }
}

impl DarkModeToggle {
    /// The preference and the persisted text agree.
    pub open spec fn wf(&self) -> bool {
        self@.persisted == stored_text(self@.prefers_dark)
    }

    /// Starts from what storage held (`None` where it held nothing or could
    /// not be read), and writes the preference back at once.
    pub fn from_stored(stored: Option<&str>) -> (r: DarkModeToggle)
        ensures
            r.wf(),
            stored is None ==> !r@.prefers_dark,
            stored is Some ==> (r@.prefers_dark <==> stored.unwrap()@ == "true"@),
    {
        let prefers_dark = prefers_dark_from_stored(stored);
        DarkModeToggle { prefers_dark, persisted: stored_value(prefers_dark) }
    }

    /// The current preference.
    pub fn prefers_dark(&self) -> (r: bool)
        ensures
            r == self@.prefers_dark,
    {
        self.prefers_dark
    }

    /// The text to write under [`STORAGE_KEY`].
    pub fn persisted(&self) -> (r: &str)
        ensures
            r@ == self@.persisted,
    {
        self.persisted.as_str()
    }

    /// The color scheme to advertise: `dark` or `light`.
    pub fn color_scheme(&self) -> (r: String)
        ensures
            r@ == scheme_text(self@.prefers_dark),
    {
        if self.prefers_dark {
            "dark".to_owned()
        } else {
            "light".to_owned()
        }
    }

    /// One activation: flips the preference and persists the new value.
    pub fn toggle(&mut self)
        ensures
            final(self).wf(),
            final(self)@ == toggled(old(self)@),
    {
        self.prefers_dark = !self.prefers_dark;
        self.persisted = stored_value(self.prefers_dark);
    }
}

/// Toggling twice restores both the preference and the persisted text.
pub proof fn toggle_twice_restores(v: PrefView)
    requires
        v.persisted == stored_text(v.prefers_dark),
    ensures
        toggled(toggled(v)) == v,
{
}

} // verus!
