//! Schema mapping for a daily sports-scoreboard feed: a decoder from the
//! loosely-typed wire document to typed records, an encoder back to the wire
//! shape, and a projection of one game to its minimal match summary.
//!
//! The decoder is permissive about presence (an absent field takes its
//! type's zero value) and strict about types (a present field of the wrong
//! type fails the decode with the field's path). Four fields are
//! polymorphic on the wire and are kept as received: `seed`, `inBonus`,
//! `playerSlug` and the odds record's `team`.

pub mod cleanup;
pub mod decode;
pub mod encode;
pub mod json;
pub mod laws;
pub mod model;
pub mod text;

pub use cleanup::remove_quotes;
pub use decode::DecodeError;
pub use decode::PathSeg;
pub use decode::decode_daily_games;
pub use encode::encode_daily_games;
pub use json::JsonNumber;
pub use json::JsonValue;
pub use model::AwayLeaders;
pub use model::AwayTeam;
pub use model::DailyGames;
pub use model::Game;
pub use model::GameLeaders;
pub use model::HomeLeaders;
pub use model::HomeTeam;
pub use model::Match;
pub use model::Meta;
pub use model::PbOdds;
pub use model::Period;
pub use model::Period2;
pub use model::Scoreboard;
pub use text::decode_document;
pub use text::encode_document;
