//! Score keeping for three-player games of tysiac: the rules a round must meet, the
//! running totals of a game, edits by an administrator and live-update notifications.

pub mod admin;
pub mod common;
pub mod edit;
pub mod error;
pub mod events;
pub mod game;
pub mod player;
pub mod scores;

pub use admin::{check_admin_password, check_password_digests, password_digest};
pub use common::{MultipleOf, MultipleOfError};
pub use edit::{plan_edits, FormEditAllScores, FormEditRoundScores, RoundChange};
pub use error::ApiError;
pub use events::{TysiacContext, TysiacEvent};
pub use game::{Game, GameContext, PlayerNames};
pub use player::Player;
pub use scores::{FormRoundScores, RoundScores};
