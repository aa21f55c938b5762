//! Per-contract query methods: the request each one serializes and the
//! decoder it applies to the response payload.

pub mod agents;
pub mod factory;
pub mod manager;
pub mod tasks;
