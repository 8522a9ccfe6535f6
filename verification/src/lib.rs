//! A small home-automation inventory: a house holds rooms, a room holds
//! devices, and names are unique within their container.

pub mod device;
pub mod device_info;
pub mod error;
pub mod house;
pub mod keyed;
pub mod manager;
pub mod room;
pub mod text;

pub use device::{DeviceKind, Socket, Thermo};
pub use device_info::{DeviceInfo, DeviceInfoReport, DeviceInfoReportComposer};
pub use error::{error_chain_fmt, HouseError, HouseErrorView};
pub use manager::Manager;
pub use room::Room;
pub use house::House;
