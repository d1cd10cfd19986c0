//! A property-list tree: arrays, dictionaries and scalar nodes, with borrowed
//! views into containers that can never outlive or free their parent.
//!
//! Ownership follows the tree. A [`Value`] made directly, by `clone`, or taken
//! out with `into_*` owns its node and everything below it, and dropping it
//! frees that subtree once. Looking a child up or walking a container hands
//! out an [`Item`] or [`ItemMut`]: a borrow of the parent, which cannot free
//! the child and cannot outlive the parent. Putting a value into a container
//! moves it there, so the container becomes its only owner; removing an entry
//! drops it at once. [`Value::replace_with`] writes new scalar content into a
//! node where it stands, so the parent keeps seeing the same slot.
//!
//! Every node is described by a [`Plist`], its content as a mathematical
//! value, and the contracts of the operations are stated over it.

pub mod array;
pub mod dictionary;
mod error;
mod scalar;
mod date;
mod value;

pub use array::Array;
pub use dictionary::Dictionary;
pub use error::Error;
pub use scalar::{Boolean, Data, Integer, Key, Null, PString, Real, Uid};
pub use date::Date;
pub use value::{Item, ItemMut, Plist, Value};
