//! An editorial workflow in two designs, and a handful of small exercises
//! on collections, strings, enums and smart pointers.

pub mod post;
pub mod typed_post;
pub mod exercises;
pub mod smart_pointer;
pub mod restaurant;
pub mod control_flow;
pub mod enums;
pub mod slices;
pub mod structs;
pub mod text_interface;
