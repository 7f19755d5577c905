//! Reading and applying wharf files: the patches and signatures that itch.io
//! uses to update and check game builds.
pub mod bsdiff;
pub mod common;
pub mod container;
pub mod patch;
pub mod protobuf;
pub mod pwr;
pub mod signature;
pub mod tlc;
