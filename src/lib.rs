//! Change detection for a storefront's product catalog: snapshots of products
//! and their variants, the diff between two snapshots, the notification text
//! for each change, and the state of a polling monitor.

pub mod models;
pub mod product_comparison;
pub mod diff_laws;
pub mod catalog;
pub mod monitor;
pub mod notification;
