use vstd::prelude::*;

verus! {

/// What kind of program the tray icon belongs to.
#[derive(Clone, Copy, Debug, PartialEq, Eq, Structural)]
pub enum Category {
    ApplicationStatus,
    Communications,
    SystemServices,
    Hardware,
}

impl Default for Category {
    fn default() -> (r: Category)
        ensures
            r == Category::ApplicationStatus,
    {
        Category::ApplicationStatus
    }
}

impl Category {
    /// The string that names this category on the bus.
    pub fn wire_name(&self) -> (r: String)
        ensures
            r@ == match self {
                Category::ApplicationStatus => "ApplicationStatus"@,
                Category::Communications => "Communications"@,
                Category::SystemServices => "SystemServices"@,
                Category::Hardware => "Hardware"@,
            },
    {
        match self {
            Category::ApplicationStatus => "ApplicationStatus".to_string(),
            Category::Communications => "Communications".to_string(),
            Category::SystemServices => "SystemServices".to_string(),
            Category::Hardware => "Hardware".to_string(),
        }
    }
}

/// How much the tray icon asks for the user's attention.
#[derive(Clone, Copy, Debug, PartialEq, Eq, Structural)]
pub enum NotifierStatus {
    Passive,
    Active,
    NeedsAttention,
}

impl Default for NotifierStatus {
    fn default() -> (r: NotifierStatus)
        ensures
            r == NotifierStatus::Active,
    {
        NotifierStatus::Active
    }
}

impl NotifierStatus {
    /// The string that names this status on the bus.
    pub fn wire_name(&self) -> (r: String)
        ensures
            r@ == match self {
                NotifierStatus::Passive => "Passive"@,
                NotifierStatus::Active => "Active"@,
                NotifierStatus::NeedsAttention => "NeedsAttention"@,
            },
    {
        match self {
            NotifierStatus::Passive => "Passive".to_string(),
            NotifierStatus::Active => "Active".to_string(),
            NotifierStatus::NeedsAttention => "NeedsAttention".to_string(),
        }
    }
}

/// An icon image: `width` by `height` pixels, four bytes (ARGB) each.
#[derive(Clone, Debug, PartialEq, Eq)]
pub struct IconPixmap {
    pub width: i32,
    pub height: i32,
    pub data: Vec<u8>,
}

/// What a tray icon shows when hovered.
#[derive(Clone, Debug, PartialEq, Eq)]
pub struct ToolTip {
    pub icon_name: String,
    pub icon_pixmap: Vec<IconPixmap>,
    pub title: String,
    pub description: String,
}

impl Default for ToolTip {
    fn default() -> (r: ToolTip)
        ensures
            r.icon_name@.len() == 0,
            r.icon_pixmap@.len() == 0,
            r.title@.len() == 0,
            r.description@.len() == 0,
    {
        ToolTip {
            icon_name: String::new(),
            icon_pixmap: Vec::new(),
            title: String::new(),
            description: String::new(),
        }
    }
}

} // verus!
