//! Host-side logic of two small GPU compute programs: one scales a buffer of
//! integers, the other doubles one field of a buffer of records.

pub mod buffer;
pub mod dispatch;
pub mod kernel;
pub mod mix;
pub mod queue;
pub mod rect;
