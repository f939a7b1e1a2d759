//! Quads for sprites: which vertices each triangle takes, and how a vertex
//! is laid out in its buffer.

use vstd::prelude::*;

verus! {

/// Vertex attribute format: three 32-bit floats.
pub const FORMAT_R32G32B32_SFLOAT: i32 = 106;

/// Vertex attribute format: two 32-bit floats.
pub const FORMAT_R32G32_SFLOAT: i32 = 103;

/// One vertex attribute: where it is bound and where it lies in a vertex.
#[derive(Clone, Copy, Debug, PartialEq, Eq, Structural)]
pub struct VertexAttribute {
    pub location: u32,
    pub binding: u32,
    pub format: i32,
    pub offset: u32,
}

/// How the vertex buffer is read: position first, texture coordinates behind it.
#[derive(Clone, Copy, Debug, PartialEq, Eq, Structural)]
pub struct VertexInfo {
    pub binding: u32,
    /// Bytes from one vertex to the next.
    pub stride: u32,
    pub position: VertexAttribute,
    pub uv: VertexAttribute,
}

#[derive(Clone, Copy, Debug, PartialEq, Eq, Structural)]
pub enum SpriteError {
    /// The indices of so many sprites cannot be counted in 32 bits.
    TooManySprites,
}

/// The index list of a batch of sprites.
#[derive(Clone, Debug)]
pub struct SpriteBatch {
    indices: Vec<u32>,
}

/// The corner of a quad that its `k`-th index names: two triangles, the
/// first over corners 0, 1, 2, the second over 2, 3, 0.
pub open spec fn quad_corner(k: int) -> int {
    if k == 0 || k == 5 {
        0
    } else if k == 1 {
        1
    } else if k == 2 || k == 3 {
        2
    } else {
        3
    }
}

/// The `k`-th index of a batch: sprite `k / 6` owns vertices `4 * (k / 6)`
/// to `4 * (k / 6) + 3`.
pub open spec fn quad_index(k: int) -> int {
    4 * (k / 6) + quad_corner(k % 6)
}

/// The indices of `sprite_count` sprites can be counted in 32 bits, and so
/// can their vertices.
pub open spec fn sprites_fit(sprite_count: nat) -> bool {
    6 * sprite_count <= u32::MAX
}

/// The layout of a vertex: 12 bytes of position and 8 of texture
/// coordinates, 20 in all.
pub open spec fn vertex_info() -> VertexInfo {
    VertexInfo {
        binding: 0,
        stride: 20,
        position: VertexAttribute {
            location: 0,
            binding: 0,
            format: FORMAT_R32G32B32_SFLOAT,
            offset: 0,
        },
        uv: VertexAttribute { location: 1, binding: 0, format: FORMAT_R32G32_SFLOAT, offset: 12 },
    }
}

impl SpriteBatch {
    /// The indices of the batch, six for each sprite.
    pub closed spec fn view(&self) -> Seq<u32> {
        self.indices@
    }

    /// How the pipeline reads a vertex.
    pub fn get_info() -> (r: VertexInfo)
        ensures
            r == vertex_info(),
    {
        VertexInfo {
            binding: 0,
            stride: 20,
            position: VertexAttribute {
                location: 0,
                binding: 0,
                format: FORMAT_R32G32B32_SFLOAT,
                offset: 0,
            },
            uv: VertexAttribute {
                location: 1,
                binding: 0,
                format: FORMAT_R32G32_SFLOAT,
                offset: 12,
            },
        }
    }

    /// One draw call can count the indices.
    pub open spec fn wf(&self) -> bool {
        self@.len() <= u32::MAX
    }

    /// A batch without sprites.
    pub fn new() -> (r: SpriteBatch)
        ensures
            r@.len() == 0,
            r.wf(),
    {
        SpriteBatch { indices: Vec::new() }
    }

    /// Replaces the batch by the indices of `sprite_count` sprites, each a
    /// quad of four vertices drawn as two triangles. More sprites than one
    /// draw call can count are refused, and the batch stays as it was.
    pub fn batch(&mut self, sprite_count: usize) -> (r: Result<(), SpriteError>)
        ensures
            old(self).wf() ==> final(self).wf(),
            r is Ok ==> final(self).wf(),
            r is Ok <==> sprites_fit(sprite_count as nat),
            r is Ok ==> final(self)@.len() == 6 * sprite_count && forall|k: int|
                0 <= k < 6 * sprite_count ==> #[trigger] final(self)@[k] == quad_index(k),
            r matches Err(e) ==> e == SpriteError::TooManySprites && final(self)@ == old(self)@,
    {
        if sprite_count > 715_827_882 {
            return Err(SpriteError::TooManySprites);
        }
        let mut indices: Vec<u32> = Vec::new();
        let mut sprite: usize = 0;
        while sprite < sprite_count
            invariant
                sprite <= sprite_count,
                sprite_count <= 715_827_882,
                indices@.len() == 6 * sprite,
                forall|k: int| 0 <= k < 6 * sprite ==> #[trigger] indices@[k] == quad_index(k),
            decreases sprite_count - sprite,
        {
            let first: u32 = (sprite * 4) as u32;
            let ghost before = indices@;
            indices.push(first);
            indices.push(first + 1);
            indices.push(first + 2);
            indices.push(first + 2);
            indices.push(first + 3);
            indices.push(first);
            proof {
                assert forall|k: int| 0 <= k < 6 * (sprite + 1) implies #[trigger] indices@[k]
                    == quad_index(k) by {
                    if k < 6 * sprite {
                        assert(indices@[k] == before[k]);
                    } else {
                        let corner = k - 6 * sprite;
                        assert(k / 6 == sprite && k % 6 == corner) by (nonlinear_arith)
                            requires
                                k == 6 * sprite + corner,
                                0 <= corner < 6,
                        ;
                    }
                }
            }
            sprite += 1;
        }
        self.indices = indices;
        Ok(())
    }

    /// The index data to upload; empty when there is nothing to draw.
    pub fn indices(&self) -> (r: &Vec<u32>)
        ensures
            r@ == self@,
    {
        &self.indices
    }

    /// Number of indices to draw, or `None` for a batch without sprites,
    /// which has no buffers and draws nothing.
    pub fn draw(&self) -> (r: Option<u32>)
        requires
            self.wf(),
        ensures
            r == if self@.len() == 0 {
                None
            } else {
                Some(self@.len() as u32)
            },
    {
        if self.indices.len() == 0 {
            None
        } else {
            Some(self.indices.len() as u32)
        }
    }
}

} // verus!
