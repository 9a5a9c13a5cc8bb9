//! Verified core of a small retained-mode GUI toolkit: render regions, mouse
//! bookkeeping, event dispatch decisions, viewport stacks and shader helpers.

pub mod region;

pub use region::RenderRegion;
pub mod mouse;

pub use mouse::{Mouse, MouseButton, MouseClickOutEvent};
pub mod pressed;

pub use pressed::PressedMouseButtons;
pub mod color;

pub use color::Color;
pub mod subscriptions;

pub use subscriptions::{BuddyCheck, BuddyTracker, ComponentSubscriptions, MouseEventKind};
pub mod mouse_store;

pub use mouse_store::MouseStore;
pub mod viewport;

pub use viewport::ViewportStack;
pub mod dispatch;

pub use dispatch::{ClickPlan, IntersectionKind, MoveAction, PlannedMove, PointRole};
pub mod menu;

pub use menu::{MenuClickStep, MenuRenderPlan};
pub mod shader;

pub use shader::{FragmentOnlyShader, FragmentOnlyShaderDescription, create_variable_names, shader_description_no_border};
pub mod shader_cache;

pub use shader_cache::{ShaderCache, ShaderId};
pub mod text;

pub use text::{
    CharTypeEvent, FontHandle, HorizontalTextAlignment, TextBackgroundFillMode, TextStyle,
    VerticalTextAlignment,
};
pub mod components;

pub use components::{DummyComponent, FlatColorComponent, SimpleFlatColorComponent, SimpleTextComponent};
pub mod desktop;

pub use desktop::{DesktopAction, DesktopMouseTracker};
