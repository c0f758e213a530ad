pub mod context;
pub mod memory;
pub mod status_mapper;
