//! `.gtx` texture containers (GFD files of the Wii U) and the surface
//! computations of the Wii U address library.
pub mod addr_lib;
pub mod parser;
pub mod types;
