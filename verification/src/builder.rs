//! The projection-matrix builder: configuration state, validation, and
//! matrix assembly.
//!
//! The builder holds five parameters. The three scalar ones (near clip, far
//! clip, field of view) are binary32 bit patterns; the two viewport ones
//! (width, height) are pixel counts. Validation is decided here, over the
//! binary32 order of `crate::binary32`. The four matrix entries that are
//! derived from the parameters by binary32 arithmetic are computed by the
//! caller and handed in as [`MatrixEntries`]; `build` places them, together
//! with the constant entries, and that placement is what its contract pins
//! down.

use vstd::prelude::*;

use crate::binary32::FULL_TURN_BITS;
use crate::binary32::ONE_BITS;
use crate::binary32::ZERO_BITS;
use crate::binary32::lt_bits;
use crate::binary32::spec_lt;

verus! {

/// A row-major 4x4 projection matrix; each entry is a binary32 bit pattern.
pub type Matrix = [[u32; 4]; 4];

/// Default near clip: binary32 zero.
pub const DEFAULT_NEAR_BITS: u32 = 0x0000_0000;

/// Default far clip: binary32 1000.
pub const DEFAULT_FAR_BITS: u32 = 0x447A_0000;

/// Default field of view: binary32 90, in degrees.
pub const DEFAULT_FOV_BITS: u32 = 0x42B4_0000;

/// Default viewport width in pixels.
pub const DEFAULT_WIDTH: usize = 1280;

/// Default viewport height in pixels.
pub const DEFAULT_HEIGHT: usize = 720;

/// Builder that accumulates the five projection parameters and assembles
/// the perspective-projection matrix.
pub struct ProjectionMatrixBuilder {
    /// Near clip position on the z axis, as a binary32 bit pattern.
    pub near: u32,
    /// Far clip position on the z axis, as a binary32 bit pattern.
    pub far: u32,
    /// Field of view in degrees, as a binary32 bit pattern.
    pub fov: u32,
    /// Viewport width in pixels.
    pub width: usize,
    /// Viewport height in pixels.
    pub height: usize,
}

/// The field of view lies strictly between 0 and 360 degrees. A NaN bit
/// pattern lies outside the range, as does either bound.
pub open spec fn spec_fov_in_range(fov: u32) -> bool {
    spec_lt(ZERO_BITS, fov) && spec_lt(fov, FULL_TURN_BITS)
}

/// The viewing volume is not degenerate: the far clip is not below the near
/// clip, so the matrix may be built.
pub open spec fn spec_can_build(b: ProjectionMatrixBuilder) -> bool {
    !spec_lt(b.far, b.near)
}

/// The four matrix entries that depend on the configuration, as binary32
/// bit patterns. The caller derives them from the parameters with binary32
/// arithmetic:
///
/// * `m00`: aspect ratio (width over height) times the field-of-view scale;
/// * `m11`: the field-of-view scale, the cotangent of half the field of view;
/// * `m22`: far times the viewing-volume depth (far minus near);
/// * `m32`: minus far times near, over the viewing-volume depth.
#[derive(Clone, Copy)]
pub struct MatrixEntries {
    /// Entry at row 0, column 0.
    pub m00: u32,
    /// Entry at row 1, column 1.
    pub m11: u32,
    /// Entry at row 2, column 2.
    pub m22: u32,
    /// Entry at row 3, column 2.
    pub m32: u32,
}

/// The entry at row `i`, column `j` is one of the five the builder writes.
pub open spec fn spec_live_entry(i: int, j: int) -> bool {
    ||| i == 0 && j == 0
    ||| i == 1 && j == 1
    ||| i == 2 && j == 2
    ||| i == 3 && j == 2
    ||| i == 2 && j == 3
}

/// The matrix is exactly the assembly of the four computed entries: each of
/// them in its place, one at row 2, column 3, and zero everywhere else.
pub open spec fn spec_assembled(m: Matrix, e: MatrixEntries) -> bool {
    &&& m[0][0] == e.m00
    &&& m[1][1] == e.m11
    &&& m[2][2] == e.m22
    &&& m[3][2] == e.m32
    &&& m[2][3] == ONE_BITS
    &&& forall|i: int, j: int|
        0 <= i < 4 && 0 <= j < 4 && !spec_live_entry(i, j) ==> (#[trigger] m[i][j])
            == ZERO_BITS
}

impl ProjectionMatrixBuilder {
    /// Returns a builder holding the default parameters: near clip 0, far
    /// clip 1000, field of view 90 degrees, viewport 1280 by 720 pixels.
    pub fn new() -> (r: Self)
        ensures
            r.near == DEFAULT_NEAR_BITS,
            r.far == DEFAULT_FAR_BITS,
            r.fov == DEFAULT_FOV_BITS,
            r.width == DEFAULT_WIDTH,
            r.height == DEFAULT_HEIGHT,
    {
        Self {
            near: DEFAULT_NEAR_BITS,
            far: DEFAULT_FAR_BITS,
            fov: DEFAULT_FOV_BITS,
            width: DEFAULT_WIDTH,
            height: DEFAULT_HEIGHT,
        }
    }

    /// Decides whether a field of view may be stored: strictly between 0
    /// and 360 degrees. On this range the binary32 order is the integer
    /// order of the bit patterns, so two integer comparisons decide it.
    pub fn fov_in_range(fov: u32) -> (r: bool)
        ensures
            r == spec_fov_in_range(fov),
    {
        proof {
            crate::binary32::lemma_positive_range_is_bit_range(fov);
        }
        0 < fov && fov < FULL_TURN_BITS
    }

    /// Sets the near clip position on the z axis. No validation happens
    /// here; the far-to-near ordering is checked when the matrix is built.
    pub fn set_near(self, near: u32) -> (r: Self)
        ensures
            r.near == near,
            r.far == self.far,
            r.fov == self.fov,
            r.width == self.width,
            r.height == self.height,
    {
        Self { near, ..self }
    }

    /// Sets the far clip position on the z axis. No validation happens
    /// here; the far-to-near ordering is checked when the matrix is built.
    pub fn set_far(self, far: u32) -> (r: Self)
        ensures
            r.near == self.near,
            r.far == far,
            r.fov == self.fov,
            r.width == self.width,
            r.height == self.height,
    {
        Self { far, ..self }
    }

    /// Sets the field of view, in degrees. The value must lie strictly
    /// between 0 and 360 degrees and is stored unchanged; a caller that
    /// cannot establish the bound tests it with [`Self::fov_in_range`] and
    /// fails loudly on the values this function refuses.
    pub fn set_fov(self, fov: u32) -> (r: Self)
        requires
            spec_fov_in_range(fov),
        ensures
            r.near == self.near,
            r.far == self.far,
            r.fov == fov,
            r.width == self.width,
            r.height == self.height,
    {
        Self { fov, ..self }
    }

    /// Sets the viewport width in pixels. No validation happens here.
    pub fn set_width(self, width: usize) -> (r: Self)
        ensures
            r.near == self.near,
            r.far == self.far,
            r.fov == self.fov,
            r.width == width,
            r.height == self.height,
    {
        Self { width, ..self }
    }

    /// Sets the viewport height in pixels. No validation happens here, so a
    /// zero height is accepted and propagates a non-finite aspect ratio
    /// into the matrix.
    pub fn set_height(self, height: usize) -> (r: Self)
        ensures
            r.near == self.near,
            r.far == self.far,
            r.fov == self.fov,
            r.width == self.width,
            r.height == height,
    {
        Self { height, ..self }
    }

    /// Decides whether the matrix may be built from this configuration:
    /// true exactly when the far clip is not below the near clip.
    pub fn can_build(&self) -> (r: bool)
        ensures
            r == spec_can_build(*self),
    {
        !lt_bits(self.far, self.near)
    }

    /// Assembles the projection matrix from the four computed entries,
    /// without changing the configuration: each entry in its place, one at
    /// row 2, column 3, and zero in the eleven remaining places. The
    /// configuration must first pass [`Self::can_build`]; a caller that
    /// cannot establish it tests and fails loudly, as on the field of view.
    pub fn build(&self, entries: MatrixEntries) -> (r: Matrix)
        requires
            spec_can_build(*self),
        ensures
            spec_assembled(r, entries),
    {
        let r: Matrix = [
            [entries.m00, ZERO_BITS, ZERO_BITS, ZERO_BITS],
            [ZERO_BITS, entries.m11, ZERO_BITS, ZERO_BITS],
            [ZERO_BITS, ZERO_BITS, entries.m22, ONE_BITS],
            [ZERO_BITS, ZERO_BITS, entries.m32, ZERO_BITS],
        ];
        r
    }
}

impl Default for ProjectionMatrixBuilder {
    /// Same defaults as [`ProjectionMatrixBuilder::new`].
    fn default() -> (r: Self)
        ensures
            r.near == DEFAULT_NEAR_BITS,
            r.far == DEFAULT_FAR_BITS,
            r.fov == DEFAULT_FOV_BITS,
            r.width == DEFAULT_WIDTH,
            r.height == DEFAULT_HEIGHT,
    {
        Self::new()
    }
}

/// Determinism of assembly: two matrices assembled from the same computed
/// entries are identical, bit for bit. Building twice from an unmodified
/// configuration therefore yields identical matrices whenever the caller
/// derives the same four entries from the same parameters.
pub proof fn lemma_build_deterministic(a: Matrix, b: Matrix, e: MatrixEntries)
    requires
        spec_assembled(a, e),
        spec_assembled(b, e),
    ensures
        a == b,
{
    assert forall|i: int| 0 <= i < 4 implies a[i] == b[i] by {
        assert forall|j: int| 0 <= j < 4 implies a[i][j] == b[i][j] by {
            if !spec_live_entry(i, j) {
                assert(a[i][j] == ZERO_BITS);
                assert(b[i][j] == ZERO_BITS);
            }
        }
        assert(a[i] =~= b[i]);
    }
    assert(a =~= b);
}

/// Entry dependence: between any two assembled matrices, an entry can
/// differ only where the computed entry placed there differs; the constant
/// entries — the one at row 2, column 3 and the eleven zeros — never
/// differ. Rebuilding after a change of one parameter therefore leaves
/// every entry whose computed value did not change bit-identical.
pub proof fn lemma_entry_dependence(a: Matrix, ea: MatrixEntries, b: Matrix, eb: MatrixEntries)
    requires
        spec_assembled(a, ea),
        spec_assembled(b, eb),
    ensures
        ea.m00 == eb.m00 ==> a[0][0] == b[0][0],
        ea.m11 == eb.m11 ==> a[1][1] == b[1][1],
        ea.m22 == eb.m22 ==> a[2][2] == b[2][2],
        ea.m32 == eb.m32 ==> a[3][2] == b[3][2],
        a[2][3] == b[2][3],
        forall|i: int, j: int|
            0 <= i < 4 && 0 <= j < 4 && !spec_live_entry(i, j) ==> (#[trigger] a[i][j]) == b[i][j],
{
}

} // verus!
