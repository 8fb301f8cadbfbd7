//! The plain choices of the panel's widgets.

pub mod splitview;
