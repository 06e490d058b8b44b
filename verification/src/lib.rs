//! A deterministic game-session driver.
//!
//! The library advances a deterministic simulation at a fixed logical rate
//! while staying decoupled from the host's variable-rate frame loop.  It
//! offers two execution strategies behind one [`session::SessionRunner`]
//! value: purely local stepping driven by a fixed-step accumulator, and
//! networked stepping whose cadence is dictated by an external lockstep
//! transport.  The host application owns the clock, the input devices and the
//! presentation layer; it hands this library plain values (frame deltas in
//! microseconds, raw button states, the transport's per-frame report) and
//! receives plain values back (scheduling decisions, queued audio events).

pub mod core_session;
pub mod grenade;
pub mod input;
pub mod manager;
pub mod particles;
pub mod sched;
pub mod session;
pub mod world;
