pub mod status;

pub use status::Status;
