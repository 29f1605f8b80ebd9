//! Verified decision logic of the spatial audio components: which listener is
//! nearest to an emitter, what kind of listener an entity is, where an effect's
//! position comes from, and how the interaural time difference node lays out its
//! channels.

pub mod channels;
pub mod firewheel_bridge;
pub mod itd;
pub mod spatial;
