//! Discovery and classification of agent working directories, plus the small
//! value types shared by the workspace's panels and release tooling.

pub mod agent_discovery;
pub mod center_pane;
pub mod dashboard;
pub mod paths;
pub mod rig_section;
pub mod role;
pub mod runners;
pub mod town_item;

pub use agent_discovery::{AgentDirectory, AgentDiscovery, DirEntryInfo, DiscoveryListing, RigEntry};
pub use center_pane::CenterPane;
pub use dashboard::{
    AgentStatus, ConnectionStatus, DashboardError, DashboardEvent, DashboardFormatter,
    DashboardState, RigInfo, TokenUsage,
};
pub use role::AgentRole;
pub use runners::{Arch, Platform, ReleaseChannel, Runner};
pub use town_item::{TabContentParams, TextColor, TownItemEvent};
