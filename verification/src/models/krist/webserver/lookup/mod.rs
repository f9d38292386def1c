pub mod addresses;
