//! A tape-based automatic-differentiation engine whose graph logic is verified.
//!
//! Numbers travel through the library as 64-bit words in the IEEE-754 binary64
//! layout. The library records and replays operations on them; the arithmetic
//! itself is done by a kernel that the caller supplies.
pub mod data_structures;
pub mod storage;
pub mod word;
pub mod kernel;
pub mod node_type;
pub mod operands;
pub mod scalar;
pub mod node;
pub mod graph;
pub mod record;
pub mod compare;
pub mod expr;
pub mod derivative;
pub mod local_derivative;
pub mod grad;
pub mod propagate;
pub mod jacobian;
pub mod jacobian_order;
pub mod jacobian_output;
pub mod jacobian_driver;
pub mod registry;
pub mod locked;
pub mod laws;
pub mod zero_law;
