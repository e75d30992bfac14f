//! Small verified building blocks: string helpers, the arguments of a search
//! program, rectangle and point geometry, classifiers of numbers and
//! characters, a setting that guards its value, names for young animals and
//! a policy for opening files.

pub mod arguments;
pub mod classify;
pub mod geometry;
pub mod naming;
pub mod recovery;
pub mod settings;
pub mod text;
