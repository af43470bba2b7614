//! The non-render half of the Gungnir desktop: the decisions the desktop takes about
//! its feeds, its link to a node, its approval queue and its recovered records, stated
//! over plain values and proved.

pub mod adsb;
pub mod anomaly;
pub mod cooperative;
pub mod decisions;
pub mod deliveries;
pub mod engagements;
pub mod exchange;
pub mod failover;
pub mod governance;
pub mod hazards;
pub mod identity;
pub mod journal;
pub mod keystore;
pub mod launch_warning;
pub mod laydown_rehearsal;
pub mod misb;
pub mod node_tasks;
pub mod peers;
pub mod pointcloud;
pub mod prediction;
pub mod projection;
pub mod radar;
pub mod rehearsal;
pub mod requirements;
pub mod retention;
pub mod review;
pub mod rhythm;
pub mod sapient;
pub mod session;
pub mod state;
pub mod text;
