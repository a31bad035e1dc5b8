pub mod code_buf;
pub mod convert;
pub mod layout;
pub mod x86_64;
