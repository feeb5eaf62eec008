pub mod consts;
mod driver;
mod engine;
pub mod proto;
pub mod test;
mod types;

pub use driver::R64Driver;
pub use engine::R64Drive;
pub use types::{BankIndex, CICType, Command, FirmwareVersion, HardwareVariant, R64DriveError,
    SaveType};
