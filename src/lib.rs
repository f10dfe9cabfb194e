//! Capability traits for collections: each trait is one thing a container can do
//! (report its length, look an item up by key, insert, remove, push and pop at either
//! end, ...), with a contract stated over the container's abstract value. Generic code
//! asks for exactly the capabilities it needs; the standard containers, and the slab and
//! slot-map containers, implement the ones their own API supports.

pub mod btree_map;
pub mod btree_set;
pub mod capabilities;
pub mod dense_slot_map;
pub mod hash_map;
pub mod hash_set;
pub mod hop_slot_map;
pub mod laws;
pub mod positional;
pub mod priority_queue;
pub mod secondary_map;
pub mod slab_map;
pub mod slot_map;
pub mod sparse_secondary_map;
pub mod traverse;
pub mod vec;
pub mod vec_deque;

pub use capabilities::{
    Capacity, Clear, Collection, Get, GetKeyValue, GetMut, Insert, Keyed, Len, Lookup, MapInsert,
    MapIter, Remove, Reserve, WithCapacity,
};
pub use dense_slot_map::DenseSlots;
pub use hop_slot_map::HopSlots;
pub use positional::{
    Back, BackMut, Front, FrontMut, Iter, PopBack, PopFront, PushBack, PushFront, Sequence,
};
pub use priority_queue::PriorityQueue;
pub use secondary_map::Secondary;
pub use slab_map::SlabMap;
pub use slot_map::Slots;
pub use sparse_secondary_map::SparseSecondary;
