//! Backend for QR code generation on a background worker.
//!
//! A producer submits requests; a single worker takes them one at a time, keeps only the most
//! recent of those already queued, renders it and hands the result to a callback. The worker's
//! decisions are a state machine whose transitions are verified; the thread, the channel and the
//! user interface around it are the caller's.

pub mod capacity;
pub mod generator;
pub mod image;
pub mod lifecycle;
pub mod request;
pub mod submit;
pub mod worker;
pub mod worker_laws;

pub use generator::{generate_image, new_qr_code_image, render_code};
pub use image::{PixelMap, PixelMapResult};
pub use lifecycle::{start_application, AppAction, AppEvent, AppPhase};
pub use request::{EcLevel, QrGenerationRequest};
pub use submit::{generate_qr_code, Submission};
pub use worker::{WorkerAction, WorkerEvent, WorkerState};
