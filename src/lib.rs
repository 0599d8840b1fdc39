//! Application core of a terminal satellite tracker: the message reducer,
//! its editing sub-machines, the pass scheduler and the cache merge.
pub mod text;
pub mod status;
pub mod decimal;
pub mod cursor;
pub mod records;
pub mod messages;
pub mod station;
pub mod passes;
pub mod cache;
pub mod addsat;
pub mod model;
pub mod keys;
pub mod timefmt;
