//! What a button of a layout does when it is pressed.

use vstd::prelude::*;

verus! {

/// Action of a layout button. Its wire name is the upper-case form given by
/// [`Action::name`].
#[derive(Eq, PartialEq, Structural, Copy, Clone, Debug)]
pub enum Action {
    LoadLayout,
    EditParam,
    SelectChan,
    NoAction,
}

/// The wire name of each action.
pub open spec fn action_name(a: Action) -> Seq<char> {
    match a {
        Action::LoadLayout => "LOAD_LAYOUT"@,
        Action::EditParam => "EDIT_PARAM"@,
        Action::SelectChan => "SELECT_CHAN"@,
        Action::NoAction => "NONE"@,
    }
}

/// The action whose wire name is `s`, if any.
pub open spec fn action_from_name(s: Seq<char>) -> Option<Action> {
    if s == "LOAD_LAYOUT"@ {
        Some(Action::LoadLayout)
    } else if s == "EDIT_PARAM"@ {
        Some(Action::EditParam)
    } else if s == "SELECT_CHAN"@ {
        Some(Action::SelectChan)
    } else if s == "NONE"@ {
        Some(Action::NoAction)
    } else {
        None
    }
}

impl Action {
    /// Wire name of the action.
    pub fn name(&self) -> (r: String)
        ensures
            r@ == action_name(*self),
    {
        match self {
            Action::LoadLayout => String::from_str("LOAD_LAYOUT"),
            Action::EditParam => String::from_str("EDIT_PARAM"),
            Action::SelectChan => String::from_str("SELECT_CHAN"),
            Action::NoAction => String::from_str("NONE"),
        }
    }

    /// The action with the wire name `s`; `None` for any other text.
    pub fn from_name(s: &str) -> (r: Option<Action>)
        ensures
            r == action_from_name(s@),
    {
        let s = s.to_owned();
        if s == String::from_str("LOAD_LAYOUT") {
            Some(Action::LoadLayout)
        } else if s == String::from_str("EDIT_PARAM") {
            Some(Action::EditParam)
        } else if s == String::from_str("SELECT_CHAN") {
            Some(Action::SelectChan)
        } else if s == String::from_str("NONE") {
            Some(Action::NoAction)
        } else {
            None
        }
    }
}


/// The action with the Rust variant name `s` (as the settings name actions), if any.
pub open spec fn action_from_variant(s: Seq<char>) -> Option<Action> {
    if s == "LoadLayout"@ {
        Some(Action::LoadLayout)
    } else if s == "EditParam"@ {
        Some(Action::EditParam)
    } else if s == "SelectChan"@ {
        Some(Action::SelectChan)
    } else if s == "None"@ {
        Some(Action::NoAction)
    } else {
        None
    }
}

impl Action {
    /// The action with the variant name `s` (`LoadLayout`, `EditParam`,
    /// `SelectChan` or `None`).
    pub fn from_variant(s: &str) -> (r: Option<Action>)
        ensures
            r == action_from_variant(s@),
    {
        let s = s.to_owned();
        if s == String::from_str("LoadLayout") {
            Some(Action::LoadLayout)
        } else if s == String::from_str("EditParam") {
            Some(Action::EditParam)
        } else if s == String::from_str("SelectChan") {
            Some(Action::SelectChan)
        } else if s == String::from_str("None") {
            Some(Action::NoAction)
        } else {
            None
        }
    }
}

/// Reading back the wire name of an action gives that action again.
pub proof fn lemma_name_round_trip(a: Action)
    ensures
        action_from_name(action_name(a)) == Some(a),
{
    reveal_strlit("LOAD_LAYOUT");
    reveal_strlit("EDIT_PARAM");
    reveal_strlit("SELECT_CHAN");
    reveal_strlit("NONE");
    assert("LOAD_LAYOUT"@[0] != "EDIT_PARAM"@[0]);
    assert("LOAD_LAYOUT"@[0] != "SELECT_CHAN"@[0]);
    assert("LOAD_LAYOUT"@[0] != "NONE"@[0]);
    assert("EDIT_PARAM"@[0] != "SELECT_CHAN"@[0]);
    assert("EDIT_PARAM"@[0] != "NONE"@[0]);
    assert("SELECT_CHAN"@[0] != "NONE"@[0]);
}

} // verus!
