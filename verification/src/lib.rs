//! Decision logic of a hardware video decoder session.
//!
//! A session feeds compressed frames to a platform codec, lets the codec
//! render decoded frames onto a double-buffered surface, and copies each
//! presented frame into one slice of a texture array. The codec, the surface
//! and the graphics queue are driven by the caller; this crate decides what
//! is asked of them and what each of their answers means. Every operation is
//! a short chain of stages: a stage names the platform call to make, and its
//! method takes what the platform answered and yields the next stage, the
//! result, or the error.
//!
//! - [`setup`]: from codec family, frame size and options to a started
//!   session.
//! - [`session`]: submitting input, retrieving output, teardown.
//! - [`identity`]: frame identities in the codec's timestamp field, and
//!   bounded waits.
//! - [`options`]: codec families, typed options, the codec's configuration.
//! - [`surface`]: the surface between codec and graphics context, and the
//!   copy out of it.
//! - [`error`]: failures, warnings, and their texts.
//! - [`laws`]: what holds of every session.

pub mod error;
pub mod identity;
pub mod laws;
pub mod options;
pub mod session;
pub mod setup;
pub mod surface;

pub use error::{DecoderError, Warning};
pub use options::{CodecType, FormatEntry, FormatKey, MediacodecDataType};
pub use session::VideoDecoder;
