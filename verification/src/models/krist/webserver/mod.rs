pub mod lookup;
