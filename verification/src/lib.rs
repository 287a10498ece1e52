//! Core simulation of a snake arcade session: fixed-point 2D geometry,
//! heading rotation, toroidal wrap-around, self-collision and food
//! consumption, deferred growth, and the two fixed-interval timers that
//! decouple logical ticks from the variable frame rate.
pub mod app;
pub mod config;
pub mod geometry;
pub mod laws;
pub mod snake;
pub mod trig;

pub use app::App;
pub use app::CollisionType;
pub use app::ControlAction;
pub use app::InputState;
pub use app::Snapshot;
pub use config::ARENA_MAX;
pub use config::ARENA_MIN;
pub use config::SPAWN_TIME_US;
pub use config::UPDATE_TIME_US;
pub use geometry::FP_ONE;
pub use geometry::Vec2;
pub use snake::Snake;
pub use trig::cos_fp;
pub use trig::rotated;
pub use trig::sin_fp;
