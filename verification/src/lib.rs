//! Rendering of a one-page personal portfolio: HTML escaping, the choice of
//! the hero media element, the embedded project data and the page itself.

pub mod escape;
pub mod media;
pub mod projects;
pub mod page;
pub mod assets;
