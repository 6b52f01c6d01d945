//! A safety-oriented layer over a native depth-camera SDK.
//!
//! The SDK hands out opaque handles for devices, sensors, stream profiles and
//! frames, and reports failures by filling an out-parameter error slot beside
//! each call's primary result. This crate wraps those handles in
//! ownership-tracked types and turns the two-part error convention into
//! ordinary fallible calls.
//!
//! The native side itself cannot be reasoned about, so everything the SDK
//! reports is modelled as plain values: a call's error slot is an
//! [`Option`] of [`error::Error`], an enumeration pass is a record of the
//! answers the SDK gave, and a frame construction consumes a record of the
//! per-field query results. An embedder performs the actual native calls and
//! hands the answers to this crate; the tests build the same records
//! directly. Every decision this layer makes over those answers — which
//! wrapper owns its handle, when a release is due, how a failed query maps to
//! a typed error, when a partial construction is abandoned — is verified.
//!
//! Floating-point quantities reported by the SDK (timestamps, option values,
//! vertex coordinates) are carried as their IEEE-754 bit patterns
//! ([`base::F32Bits`], [`base::F64Bits`]); this layer never computes on them.

pub mod base;
pub mod device;
pub mod error;
pub mod frame;
pub mod handle;
pub mod kind;
pub mod native;
pub mod sensor;
pub mod stream_profile;
