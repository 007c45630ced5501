//! The decision logic of the Python bindings for the Omikuji extreme
//! multi-label classifier: preparing sparse feature vectors for prediction,
//! trimming ranked predictions, resolving training hyper-parameters, and
//! deciding which worker pool a model operation runs in.

pub mod features;
pub mod predictions;
pub mod pool;
pub mod hyper_param;
