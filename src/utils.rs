pub use crate::event_types::{EventUpdate, MenuStatus, TextDirection, ToggleState, ToggleType};
pub use crate::layout::{LayoutItem, MenuProperty, PropertyItem};
pub use crate::menu::{
    ButtonOptions, MenuEntry, MenuError, MenuKind, MenuProperties, MenuTree, MenuUnit,
    RadioGroupBuilder, RadioOptions,
};
pub use crate::notifier::{Category, IconPixmap, NotifierStatus, ToolTip};
pub use crate::service::{LayoutUpdated, MenuService};
