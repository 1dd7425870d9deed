//! The systems of the simulation.

pub mod competition_system;
pub mod development_system;
pub mod match_system;
pub mod morale_system;
pub mod rating_aggregator;
pub mod reputation_system;
pub mod social_system;
pub mod statistics_accumulator;
pub mod training_system;
pub mod transfer_system;

pub use competition_system::CompetitionEngine;
pub use development_system::PlayerDevelopmentEngine;
pub use match_system::MatchEngine;
pub use morale_system::MoraleEngine;
pub use reputation_system::ReputationEngine;
pub use social_system::SocialEngine;
pub use training_system::TrainingSystem;
pub use transfer_system::TransferEngine;
