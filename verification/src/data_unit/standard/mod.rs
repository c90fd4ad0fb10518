//! Standard data units: upstream (types 1-28) and downstream (types 61-91).
pub mod downstream;
pub mod upstream;
