//! Verified core of a perspective-projection matrix builder.
//!
//! The builder accumulates five parameters — near clip, far clip, field of
//! view, viewport width and viewport height — validates them, and assembles
//! a row-major 4x4 perspective-projection matrix for a downstream renderer.
//!
//! Scalars are carried as IEEE 754 binary32 bit patterns in `u32` fields,
//! and the contracts are stated over those bit patterns: the binary32 order
//! that decides validation is defined bit-level in [`binary32`], and the
//! assembly contract in [`builder`] pins every entry of the matrix. The
//! binary32 arithmetic that derives the four configuration-dependent
//! entries (aspect ratio, field-of-view scale, and the two depth entries)
//! stays outside this crate, with the caller, which hands the four results
//! in as [`builder::MatrixEntries`].

pub mod binary32;
pub mod builder;

pub use builder::Matrix;
pub use builder::MatrixEntries;
pub use builder::ProjectionMatrixBuilder;
