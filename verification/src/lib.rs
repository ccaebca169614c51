pub mod chart;
pub mod commands;
pub mod config;
pub mod digest;
pub mod errors;
pub mod helm;
pub mod inventory;
pub mod json;
pub mod protocol;
pub mod text;

pub use chart::Chart;
pub use chart::Charts;
pub use commands::CommandOutcome;
pub use config::BootstrapPlan;
pub use config::Config;
pub use errors::HelmError;
pub use helm::Helm;
pub use protocol::CheckRequest;
pub use protocol::InRequest;
pub use protocol::InResponse;
pub use protocol::OutRequest;
pub use protocol::OutResponse;
pub use protocol::OutSession;
pub use protocol::Source;
pub use protocol::Version;
