//! The dashboard's data model and the text shown when its data cannot be had.

use vstd::prelude::*;

verus! {

/// Connection state of the dashboard's data source.
#[derive(Clone, Debug, PartialEq, Eq, Structural)]
pub enum ConnectionStatus {
    Connected,
    Disconnected,
    Unknown,
}

/// State of a running agent.
#[derive(Clone, Debug, PartialEq)]
pub enum AgentStatus {
    Active,
    Idle,
    Error(String),
}

/// Events emitted by the dashboard when state changes.
#[derive(Clone, Debug)]
pub enum DashboardEvent {
    /// Dashboard data was refreshed
    DataRefreshed,
    /// Connection status changed
    ConnectionChanged(ConnectionStatus),
    /// An agent was added
    AgentAdded(String),
    /// An agent was removed
    AgentRemoved(String),
    /// An agent's status changed
    AgentStatusChanged { name: String, status: AgentStatus },
}

/// Tokens that an agent has consumed and produced.
#[derive(Clone, Debug, Default)]
pub struct TokenUsage {
    pub input_tokens: u64,
    pub output_tokens: u64,
}

/// A rig as the dashboard lists it.
#[derive(Clone, Debug)]
pub struct RigInfo {
    pub name: String,
    pub path: String,
}

/// Why dashboard data could not be had.
#[derive(Debug, Clone)]
pub enum DashboardError {
    NotAvailable,
    FetchFailed(String),
    ParseError(String),
}

/// The one-line description of an error.
pub open spec fn error_message(e: DashboardError) -> Seq<char> {
    match e {
        DashboardError::NotAvailable => "Dashboard not available"@,
        DashboardError::FetchFailed(msg) => "Fetch failed: "@ + msg@,
        DashboardError::ParseError(msg) => "Parse error: "@ + msg@,
    }
}

/// The text that the dashboard shows in place of its data on an error.
pub open spec fn error_text(e: DashboardError) -> Seq<char> {
    match e {
        DashboardError::NotAvailable => "Dashboard unavailable\n\nRun 'gt up' to start Gastown"@,
        DashboardError::FetchFailed(msg) => "Failed to load dashboard\n\n"@ + msg@,
        DashboardError::ParseError(msg) => "Failed to parse dashboard data\n\n"@ + msg@,
    }
}

impl DashboardError {
    /// Describes the error in one line.
    pub fn message(&self) -> (r: String)
        ensures
            r@ == error_message(*self),
    {
        match self {
            DashboardError::NotAvailable => String::from_str("Dashboard not available"),
            DashboardError::FetchFailed(msg) => {
                let mut r = String::from_str("Fetch failed: ");
                r.append(msg.as_str());
                r
            },
            DashboardError::ParseError(msg) => {
                let mut r = String::from_str("Parse error: ");
                r.append(msg.as_str());
                r
            },
        }
    }
}

/// What the dashboard holds between refreshes: the last data fetched, or the
/// error that the last fetch gave, and whether the source was reachable.
pub struct DashboardState<D> {
    pub data: Option<D>,
    pub error: Option<DashboardError>,
    pub connection_status: ConnectionStatus,
}

impl<D> DashboardState<D> {
    /// The state before the first refresh.
    pub fn new() -> (r: DashboardState<D>)
        ensures
            r.data is None,
            r.error is None,
            r.connection_status == ConnectionStatus::Unknown,
    {
        DashboardState { data: None, error: None, connection_status: ConnectionStatus::Unknown }
    }

    /// Takes in the outcome of one refresh: whether the source reported
    /// itself available, and what fetching from it gave. Returns whether new
    /// data came, so that the time of the update is to be recorded.
    pub fn apply_refresh(&mut self, available: bool, fetched: Result<D, DashboardError>) -> (r: bool)
        ensures
            final(self).connection_status == if available {
                ConnectionStatus::Connected
            } else {
                ConnectionStatus::Disconnected
            },
            r == fetched is Ok,
            fetched matches Ok(d) ==> final(self).data == Some(d) && final(self).error is None,
            fetched matches Err(e) ==> final(self).data is None && final(self).error == Some(e),
    {
        self.connection_status = if available {
            ConnectionStatus::Connected
        } else {
            ConnectionStatus::Disconnected
        };
        match fetched {
            Ok(data) => {
                self.data = Some(data);
                self.error = None;
                true
            },
            Err(err) => {
                self.data = None;
                self.error = Some(err);
                false
            },
        }
    }
}

/// Formats dashboard data for display.
pub struct DashboardFormatter;

impl DashboardFormatter {
    /// The text shown in place of the dashboard when `error` prevented loading it.
    pub fn format_error(error: &DashboardError) -> (r: String)
        ensures
            r@ == error_text(*error),
    {
        match error {
            DashboardError::NotAvailable => String::from_str(
                "Dashboard unavailable\n\nRun 'gt up' to start Gastown",
            ),
            DashboardError::FetchFailed(msg) => {
                let mut r = String::from_str("Failed to load dashboard\n\n");
                r.append(msg.as_str());
                r
            },
            DashboardError::ParseError(msg) => {
                let mut r = String::from_str("Failed to parse dashboard data\n\n");
                r.append(msg.as_str());
                r
            },
        }
    }
}

} // verus!
