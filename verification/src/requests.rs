//! The command catalog: one module per supported operation, each giving the
//! wire encoding of its request frame and the decoding of a valid reply.

pub mod confirm;
pub mod get_dpi_data;
pub mod get_leds;
pub mod get_power_data;
pub mod get_profile_and_firmware_v;
pub mod set_active_profile;
pub mod set_light_mode;
