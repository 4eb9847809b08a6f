pub mod archive;
pub mod configuration;
pub mod deployment;
pub mod locator;
pub mod selection;
