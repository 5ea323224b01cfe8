//! The tabs of the Manager window.

pub mod advanced;
pub mod calendar;
pub mod filtering;
pub mod general;
pub mod notifications;
pub mod statistics;
pub mod training;
