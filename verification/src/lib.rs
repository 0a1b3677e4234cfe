//! Viewport tracking for a multi-line text area drawn into a fixed-size
//! rectangle of terminal cells.
//!
//! A [`Viewport`] remembers which window of the text buffer was visible in the
//! last frame. On every frame the window is moved just far enough to keep the
//! cursor inside it ([`next_scroll_top`]), and the result is stored for the
//! frame after. [`TextAreaWidget::plan`] puts the steps of one frame together.

pub mod follow;
pub mod viewport;
pub mod widget;

pub use crate::follow::next_scroll_top;
pub use crate::viewport::Viewport;
pub use crate::viewport::Window;
pub use crate::widget::Area;
pub use crate::widget::RenderPlan;
pub use crate::widget::TextAreaWidget;
