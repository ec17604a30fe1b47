//! Simulation core of a breakout-style arcade game.
//!
//! A ball flies between walls, a paddle and blocks. A rigid-body physics
//! world moves the ball and reports what touches what; this crate decides
//! what a contact means for the game, and leads a session through its
//! modes: title, preparation of a level, live play, completion of a level,
//! and the end of a won or lost game.
//!
//! # How the parts fit
//!
//! - The entities live in a `hecs::World` ([`world`]): walls, paddle, blocks
//!   and balls ([`entity_archetypes`]), each carrying [`components`].
//! - The physics world is `rapier2d`, behind the adapter of
//!   [`physics_engine`], which keeps the one-to-one mapping between entities
//!   and bodies.
//! - [`state`] holds what lasts from tick to tick. A change of mode is asked
//!   for in the state and carried out at the start of the next tick
//!   ([`game_mode_transitions`]).
//! - [`step`] is one tick. While a level is played, the tick has two halves
//!   with the step of the physics world between them; the second half
//!   responds to the collisions of the step
//!   ([`systems::playing::physics`]), carries out the removals they ask for
//!   ([`systems::playing::cleanup`]) and checks whether the level is cleared
//!   or lost ([`systems::playing::state_changing`]).
//! - A tick leaves lists behind for its caller: draw commands
//!   ([`render_commands`]), audio cues ([`audio_playing`]) and requests for
//!   bodies that the physics world is to create.
//!
//! # Measures
//!
//! Lengths are integers in units of 1/1024 pixel and speeds in such units
//! per second, so that the rules are decided in exact arithmetic. The
//! physics world measures in floating-point metres; whoever creates bodies
//! and copies positions between the two converts.
//!
//! # What is proved and what is trusted
//!
//! Every function states what it returns and changes, and the statements
//! are proved, with these exceptions: what is said of calls into `hecs`,
//! `rapier2d`, `rand` and of text formatting is taken on trust. Each such
//! call stands in a small function of its own, marked as not proved, in
//! [`world`], [`physics_engine`], [`audio_playing`],
//! [`systems::playing::util`] and [`render_commands`].

pub mod audio;
pub mod audio_playing;
pub mod collision;
pub mod components;
pub mod entity_archetypes;
pub mod game_mode_transitions;
pub mod input_processing;
pub mod level_data;
pub mod message_stream;
pub mod physics_engine;
pub mod render;
pub mod render_commands;
pub mod state;
pub mod step;
pub mod systems;
pub mod timer;
pub mod world;
