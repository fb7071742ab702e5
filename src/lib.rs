//! Laptop platform control: GPU mode switching for hybrid graphics laptops,
//! together with the keyboard lighting, AniMe matrix, battery and fan
//! profile data models that the daemon and its command line share.

pub mod text;
pub mod gfx_vendors;
pub mod error;
pub mod pci;
pub mod setup;
pub mod conf;
pub mod driver;
pub mod session;
pub mod controller;
pub mod aura;
pub mod aura_cli;
pub mod aura_config;
pub mod aura_usb;
pub mod cli_options;
pub mod cli_opts;
pub mod anime_matrix;
pub mod anime_device;
pub mod anime_diagonal;
pub mod ctrl_charge;
pub mod ctrl_fan_cpu;
pub mod laptops;
pub mod supported;
