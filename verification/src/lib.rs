//! Decision core of a service that wakes a television while clients are
//! connected and puts it to sleep when the last one leaves.

pub mod tv;
pub mod aggregator;
pub mod listener;
pub mod watcher;
pub mod ordering;
pub mod cec;
pub mod avahi;
pub mod startup;
