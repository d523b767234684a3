//! A streaming source of the decimal digits of pi.
//!
//! The engine runs Gibbons' unbounded spigot algorithm over
//! arbitrary-precision integers and hands out one character per request:
//! the leading `'3'`, then `'.'`, then the fractional digits, forever.

mod big;
mod engine;
mod laws;
mod model;

pub use big::trunc_div;
pub use engine::Engine;
pub use laws::lemma_leading_digit_and_point;
pub use laws::lemma_next_result_fuel_independent;
pub use laws::lemma_output_alphabet;
pub use laws::lemma_run_concat;
pub use laws::lemma_run_deterministic;
pub use laws::lemma_run_len;
pub use laws::lemma_run_shape;
pub use laws::lemma_search_monotone;
pub use model::EngineModel;
pub use model::Spigot;
pub use model::certified;
pub use model::digit_char;
pub use model::extracted;
pub use model::init_model;
pub use model::init_spigot;
pub use model::is_decimal_digit;
pub use model::model_wf;
pub use model::next_result;
pub use model::refined;
pub use model::refined_n;
pub use model::run;
pub use model::search;
pub use model::spigot_wf;
