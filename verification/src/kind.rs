//! Enumerations mirroring the native SDK's C-style constant tables.
//!
//! The SDK represents every category — camera-info keys, stream kinds, pixel
//! formats, options, extensions, frame-metadata keys, timestamp domains,
//! exception categories — as a small integer. Each table is wrapped here as a
//! Rust enum together with verified conversions to and from the native code:
//! `to_i32` is total, `from_i32` recognises exactly the codes the table
//! defines, and the two are proved inverse to each other.

pub mod camera_info;
pub mod exception;
pub mod extension;
pub mod format;
pub mod frame_metadata;
pub mod option;
pub mod stream_kind;
pub mod timestamp_domain;

pub use camera_info::Rs2CameraInfo;
pub use exception::Rs2Exception;
pub use extension::Rs2Extension;
pub use format::Rs2Format;
pub use frame_metadata::Rs2FrameMetadata;
pub use option::OptionSetError;
pub use option::Rs2Option;
pub use option::Rs2OptionRange;
pub use stream_kind::Rs2StreamKind;
pub use timestamp_domain::Rs2TimestampDomain;
