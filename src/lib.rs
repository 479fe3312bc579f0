//! Resource discovery, command dispatch and guarded instance termination
//! for an infrastructure management tool.
pub mod asp;
pub mod dispatch;
pub mod path;
pub mod terminate;
