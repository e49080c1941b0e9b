//! A falling-particles animation: configuration, particle lifecycle and the
//! per-frame spawn / compact / advance / cull / draw cycle, with every step
//! stated and proved. Drawing is described by a list of commands that the
//! host replays on its canvas.
mod random;

pub use random::{get_random_i64, get_random_usize, in_draw_range};
mod config;

pub use config::{FallingConfig, FlakeType};
mod particle;
mod scene;

pub use particle::{advanced, clamp_i64, draw_of, made_from, spawned_under, DrawCommand, FallingObject};
pub use scene::{culled, culled_all, draws_of, frame, frame_draws, live, Scene};
mod laws;

pub use laws::{
    lemma_advance_deterministic, lemma_color_in_palette, lemma_compaction_order,
    lemma_deferred_removal, lemma_draws_in_range_spawn, lemma_first_frame, lemma_fixed_ranges,
    lemma_live_all_alive, lemma_live_prefix, lemma_live_unflagged, lemma_spawn_count,
    never_culled, run,
};
