//! Layout projection for a bevy game's UI: where each widget's visual
//! element is drawn, decided from the resolved layout tree, and the decisions
//! of the intro and main-menu routes.

pub mod intro;
pub mod menu;
pub mod projection;
