//! Economic core of a small business simulator.
//!
//! The player picks a kind of Thing, makes Things by clicking and over
//! time, and sells them. What a sale earns depends on the player's
//! reputation and marketing, and on a world of calendar, weather and
//! economy that moves by itself, one simulated day at a time.
//!
//! All quantities are exact. Amounts are signed fixed-point numbers with
//! six decimal places, so every rule of the simulation is a function on
//! integers, and the contracts are stated over `int`. The two things that
//! only floating point can give, the sine behind the pseudo-random draws
//! and the cosine of the seasons, come from the caller: the world says
//! what it needs for a day ([`economy::day_request`]) and takes the answers
//! ([`economy::advance_one_day`]).

pub mod business;
pub mod calendar;
pub mod clicker;
pub mod dialogue;
pub mod display;
pub mod economy;
pub mod fixed;
pub mod game_state;
pub mod history;
pub mod marketing;
pub mod terry;
pub mod thing_type;
