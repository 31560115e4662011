pub mod err;
pub mod frame;
pub mod hex;
pub mod id;
