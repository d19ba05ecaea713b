//! Plugin catalog and install-state core: a paginated, de-duplicated view of
//! a remote plugin catalog, and the local install / disable state from which
//! each package's status is derived.

pub mod volt;
pub mod ordered_map;
pub mod volts_list;
pub mod plugin_data;

