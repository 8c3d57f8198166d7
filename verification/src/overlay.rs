//! The configuration overlay: a panel over the current list, with a focus
//! that cycles through its three fields.

use crate::config::Config;
use vstd::prelude::*;

verus! {

/// A field of the overlay that can hold the focus.
#[derive(Clone, Copy, Debug, PartialEq, Eq, Structural)]
pub enum ConfigElement {
    Browser,
    /// The button that accepts the changes.
    Confirm,
    Cancel,
}

impl ConfigElement {
    /// The field after this one; after the last comes the first.
    pub open spec fn following(self) -> ConfigElement {
        match self {
            ConfigElement::Browser => ConfigElement::Confirm,
            ConfigElement::Confirm => ConfigElement::Cancel,
            ConfigElement::Cancel => ConfigElement::Browser,
        }
    }

    /// The field before this one; before the first comes the last.
    pub open spec fn preceding(self) -> ConfigElement {
        match self {
            ConfigElement::Browser => ConfigElement::Cancel,
            ConfigElement::Confirm => ConfigElement::Browser,
            ConfigElement::Cancel => ConfigElement::Confirm,
        }
    }
}

/// Forward and backward undo each other on every field.
pub proof fn lemma_focus_cycle(element: ConfigElement)
    ensures
        element.following().preceding() == element,
        element.preceding().following() == element,
{
}

/// Three steps in one direction lead back to the field they started from.
pub proof fn lemma_focus_wraps(element: ConfigElement)
    ensures
        element.following().following().following() == element,
        element.preceding().preceding().preceding() == element,
{
}

/// The overlay: whether it is visible, which field has the focus, and the
/// configuration it edits.
#[derive(Clone, Copy, Debug, PartialEq, Eq, Structural)]
pub struct ConfigManager {
    pub is_visible: bool,
    pub active_element: ConfigElement,
    pub config: Config,
}

impl ConfigManager {
    /// A hidden overlay on `config`, with the focus on the browser field.
    pub fn new(config: Config) -> (r: Self)
        ensures
            r == (ConfigManager {
                is_visible: false,
                active_element: ConfigElement::Browser,
                config,
            }),
    {
        ConfigManager { is_visible: false, active_element: ConfigElement::Browser, config }
    }

    /// The overlay with the focus on the following field.
    pub open spec fn focus_next(self) -> ConfigManager {
        ConfigManager { active_element: self.active_element.following(), ..self }
    }

    /// The overlay with the focus on the preceding field.
    pub open spec fn focus_previous(self) -> ConfigManager {
        ConfigManager { active_element: self.active_element.preceding(), ..self }
    }

    /// Moves the focus to the following field.
    pub fn next(&mut self)
        ensures
            *final(self) == old(self).focus_next(),
    {
        match self.active_element {
            ConfigElement::Browser => self.active_element = ConfigElement::Confirm,
            ConfigElement::Confirm => self.active_element = ConfigElement::Cancel,
            ConfigElement::Cancel => self.active_element = ConfigElement::Browser,
        }
    }

    /// Moves the focus to the preceding field.
    pub fn previous(&mut self)
        ensures
            *final(self) == old(self).focus_previous(),
    {
        match self.active_element {
            ConfigElement::Browser => self.active_element = ConfigElement::Cancel,
            ConfigElement::Confirm => self.active_element = ConfigElement::Browser,
            ConfigElement::Cancel => self.active_element = ConfigElement::Confirm,
        }
    }
}

} // verus!
