//! Typed, bounds-checked access to the boot-time firmware interface.

pub mod array;
pub mod boot_services;
pub mod boot_services_ex;
pub mod common;
pub mod configuration_table;
pub mod dynamic_array;
pub mod interface;
pub mod runtime_services;
pub mod system_table;
pub mod tools;
