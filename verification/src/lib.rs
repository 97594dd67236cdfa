//! A minimal feed-forward engine for fixed-topology perceptron networks.
//!
//! The building blocks are a size-tagged numeric container ([`Arr`]), a
//! single weighted-sum-plus-bias unit ([`Perceptron`]), a fixed-width
//! collection of such units ([`PerceptronLayer`]), and a chained network
//! whose adjacent layer widths are validated once at construction
//! ([`Network`]).

pub mod arr;
pub mod layer;
pub mod network;
pub mod normalizers;
pub mod perceptron;
mod rng;

pub use arr::Arr;
pub use layer::Layer;
pub use network::DynLayer;
pub use network::Network;
pub use layer::PerceptronLayer;
pub use normalizers::identity;
pub use normalizers::Normalizer;
pub use perceptron::Perceptron;
