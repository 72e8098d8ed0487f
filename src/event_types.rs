use vstd::prelude::*;

verus! {

/// How a menu entry can be toggled.
#[derive(Clone, Copy, Debug, PartialEq, Eq, Structural)]
pub enum ToggleType {
    Checkmark,
    Radio,
    /// Not toggleable.
    Plain,
}

impl Default for ToggleType {
    fn default() -> (r: ToggleType)
        ensures
            r == ToggleType::Radio,
    {
        ToggleType::Radio
    }
}

impl ToggleType {
    /// The string that names this toggle type on the bus.
    pub fn wire_name(&self) -> (r: String)
        ensures
            r@ == self.spec_wire_name(),
    {
        match self {
            ToggleType::Checkmark => "checkmark".to_string(),
            ToggleType::Radio => "radio".to_string(),
            ToggleType::Plain => "".to_string(),
        }
    }

    pub open spec fn spec_wire_name(&self) -> Seq<char> {
        match self {
            ToggleType::Checkmark => "checkmark"@,
            ToggleType::Radio => "radio"@,
            ToggleType::Plain => ""@,
        }
    }
}

/// Whether a toggleable menu entry is currently on.
#[derive(Clone, Copy, Debug, PartialEq, Eq, Structural)]
pub enum ToggleState {
    UnSelected,
    Selected,
    TriState,
}

impl Default for ToggleState {
    fn default() -> (r: ToggleState)
        ensures
            r == ToggleState::UnSelected,
    {
        ToggleState::UnSelected
    }
}

impl ToggleState {
    /// The integer that stands for this state on the bus: 0 off, 1 on, 2
    /// indeterminate; reading it back takes any other value as indeterminate too.
    pub fn to_wire(&self) -> (r: i32)
        ensures
            r == self.spec_to_wire(),
    {
        match self {
            ToggleState::UnSelected => 0,
            ToggleState::Selected => 1,
            ToggleState::TriState => 2,
        }
    }

    pub open spec fn spec_to_wire(&self) -> i32 {
        match self {
            ToggleState::UnSelected => 0i32,
            ToggleState::Selected => 1i32,
            ToggleState::TriState => 2i32,
        }
    }

    /// Reads the bus integer back.
    pub fn from_wire(v: i32) -> (r: ToggleState)
        ensures
            v == 0 ==> r == ToggleState::UnSelected,
            v == 1 ==> r == ToggleState::Selected,
            v != 0 && v != 1 ==> r == ToggleState::TriState,
    {
        if v == 0 {
            ToggleState::UnSelected
        } else if v == 1 {
            ToggleState::Selected
        } else {
            ToggleState::TriState
        }
    }
}

/// The reading direction of the menu's text.
#[derive(Clone, Copy, Debug, PartialEq, Eq, Structural)]
pub enum TextDirection {
    Inherit,
    Rtl,
    Ltr,
}

impl Default for TextDirection {
    fn default() -> (r: TextDirection)
        ensures
            r == TextDirection::Inherit,
    {
        TextDirection::Inherit
    }
}

impl TextDirection {
    /// The string that names this direction on the bus.
    pub fn wire_name(&self) -> (r: String)
        ensures
            r@ == match self {
                TextDirection::Inherit => "inherit"@,
                TextDirection::Rtl => "rtl"@,
                TextDirection::Ltr => "ltr"@,
            },
    {
        match self {
            TextDirection::Inherit => "inherit".to_string(),
            TextDirection::Rtl => "rtl".to_string(),
            TextDirection::Ltr => "ltr".to_string(),
        }
    }
}

/// What an interaction handler reports about the visible menu after it ran.
#[derive(Clone, Copy, Debug, PartialEq, Eq, Structural)]
pub enum EventUpdate {
    /// Nothing visible changed.
    NoUpdate,
    /// The entries around the one that was used changed.
    UpdateCurrent,
    /// The whole menu changed.
    UpdateAll,
}

impl EventUpdate {
    /// How far a change reaches: nothing, the entries around one, the whole menu.
    pub open spec fn reach(self) -> int {
        match self {
            EventUpdate::NoUpdate => 0,
            EventUpdate::UpdateCurrent => 1,
            EventUpdate::UpdateAll => 2,
        }
    }

    /// The wider of two reports, for an event that reached two handlers.
    pub fn join(self, other: EventUpdate) -> (r: EventUpdate)
        ensures
            r == (if self.reach() >= other.reach() {
                self
            } else {
                other
            }),
    {
        match (self, other) {
            (EventUpdate::UpdateAll, _) => EventUpdate::UpdateAll,
            (_, EventUpdate::UpdateAll) => EventUpdate::UpdateAll,
            (EventUpdate::UpdateCurrent, _) => EventUpdate::UpdateCurrent,
            (_, other) => other,
        }
    }
}

/// The menu's overall status.
#[derive(Clone, Copy, Debug, PartialEq, Eq, Structural)]
pub enum MenuStatus {
    Normal,
    Notice,
}

impl Default for MenuStatus {
    fn default() -> (r: MenuStatus)
        ensures
            r == MenuStatus::Normal,
    {
        MenuStatus::Normal
    }
}

impl MenuStatus {
    /// The string that names this status on the bus.
    pub fn wire_name(&self) -> (r: String)
        ensures
            r@ == match self {
                MenuStatus::Normal => "normal"@,
                MenuStatus::Notice => "notice"@,
            },
    {
        match self {
            MenuStatus::Normal => "normal".to_string(),
            MenuStatus::Notice => "notice".to_string(),
        }
    }
}

} // verus!
