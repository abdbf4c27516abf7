//! Templates, sensors and widget logic for Lian Li LCD screens.
pub mod float_bits;
pub mod media;
pub mod sensors;
pub mod template;
pub mod text;
pub mod template_defaults;
pub mod template_store;
pub mod custom;
