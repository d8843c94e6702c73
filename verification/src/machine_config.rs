pub mod acpi;
pub mod binary;
pub mod machine_config;
pub mod mem_map;
