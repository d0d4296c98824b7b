pub mod dashboard;
pub mod follows;
pub mod friend;
pub mod hero;
pub mod item;
pub mod matches;
pub mod setting;
pub mod setup;
