pub mod entities;
pub mod value_objects;
