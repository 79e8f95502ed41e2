pub mod gb;
pub mod ram;
