//! A push-to-talk dictation pipeline: one hotkey cycles a trigger state
//! machine through capturing a spoken instruction, capturing spoken content,
//! and running a transcribe-then-rewrite pipeline whose result lands on the
//! clipboard.  This crate holds the verified core: the audio resampler and
//! WAV normalizer, the trigger and pipeline state machines, the enrichment
//! request builder and response classifier, and the persisted data model.
//! Device access, file and network I/O, and the inference engine live in the
//! surrounding application, which drives these functions with plain values.

pub mod audio;
pub mod enrich;
pub mod logic;
pub mod models;
pub mod ollama;
pub mod pipeline;
pub mod provision;
pub mod resample;
pub mod sample;
pub mod transcribe;
pub mod wav;
