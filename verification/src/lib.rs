//! Verified bootstrap logic for a prefab-driven 3D scene demo.
//!
//! The demo itself is an engine application: it loads a scene prefab
//! (mesh, camera, lights, animation, fly-camera controls) from a
//! declarative file, waits for asynchronous asset loading to finish,
//! spawns the resulting entities, and then runs a render loop.  All of
//! the heavy lifting (rendering, asset streaming, entity storage) is
//! the engine's; what is first-party is the small state machine that
//! drives bootstrapping — loading, then spawning, then running — from
//! a progress counter, plus a trivial input handler.
//!
//! This crate holds that state machine as plain verified code.  The
//! surrounding program polls the engine each frame, reduces what it
//! saw to plain values ([`state::Completion`], a found entity id), and
//! asks the library what to do next; the library answers with a
//! [`state::FrameOutcome`] that the program carries out.

pub mod scene;
pub mod state;
