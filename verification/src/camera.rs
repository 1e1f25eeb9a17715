//! The 2D camera: a position, the fixed design extent, and the projection
//! matrix that goes to the GPU.
//!
//! The matrix is computed by the caller's projection function from the
//! position alone; the window size has no part in it.

use vstd::prelude::*;
use crate::uniforms::{spells, words_as_bytes};

verus! {

/// Width of the design extent: 800.0 in single precision.
pub const WIDTH: u32 = 0x4448_0000;

/// Height of the design extent: 600.0 in single precision.
pub const HEIGHT: u32 = 0x4416_0000;

/// Size of the camera uniform on the wire, in bytes.
pub const CAMERA_UNIFORM_BYTES: usize = 64;

/// The camera's uniform block: a 4 by 4 matrix of single-precision bit
/// patterns, one inner array per column.
#[derive(Clone, Copy, Debug, PartialEq, Eq)]
pub struct Camera2DUniform {
    pub proj: [[u32; 4]; 4],
}

impl Camera2DUniform {
    /// The matrix in wire order: column after column.
    pub open spec fn layout(self) -> Seq<u32> {
        Seq::new(16, |k: int| self.proj[k / 4][k % 4])
    }

    /// The matrix in wire order.
    pub fn words(&self) -> (w: Vec<u32>)
        ensures
            w@ == self.layout(),
    {
        let mut w: Vec<u32> = Vec::new();
        let mut column: usize = 0;
        while column < 4
            invariant
                column <= 4,
                w@.len() == 4 * column,
                forall|k: int| 0 <= k < w@.len() ==> w@[k] == self.proj[k / 4][k % 4],
            decreases 4 - column,
        {
            let c = &self.proj[column];
            w.push(c[0]);
            w.push(c[1]);
            w.push(c[2]);
            w.push(c[3]);
            column = column + 1;
        }
        assert(w@ =~= self.layout());
        w
    }

    /// The block's bytes as they are written to the GPU buffer: its words
    /// in wire order, in the machine's byte order.
    pub fn bytes(&self) -> (b: Vec<u8>)
        ensures
            spells(b@, self.layout()),
            b@.len() == CAMERA_UNIFORM_BYTES,
    {
        let w = self.words();
        words_as_bytes(&w)
    }
}

/// The camera.
#[derive(Clone, Copy, Debug, PartialEq, Eq)]
pub struct Camera2D {
    pub position: (u32, u32, u32),
    pub scale: (u32, u32),
    pub uniform: Camera2DUniform,
}

impl Camera2D {
    /// A camera at the origin over the design extent, with `uniform` as its
    /// block.
    pub fn new(uniform: Camera2DUniform) -> (camera: Self)
        ensures
            camera == (Camera2D { position: (0, 0, 0), scale: (WIDTH, HEIGHT), uniform }),
    {
        Camera2D { position: (0, 0, 0), scale: (WIDTH, HEIGHT), uniform }
    }

    /// Moves the camera to `position` and stores the projection that
    /// `project` gives for it.
    pub fn update<F: Fn((u32, u32, u32)) -> [[u32; 4]; 4]>(
        &mut self,
        position: (u32, u32, u32),
        project: &F,
    )
        requires
            forall|p: (u32, u32, u32)| call_requires(*project, (p,)),
        ensures
            final(self).position == position,
            final(self).scale == old(self).scale,
            call_ensures(*project, (position,), final(self).uniform.proj),
    {
        self.position = position;
        self.uniform.proj = project(position);
    }
}

} // verus!
