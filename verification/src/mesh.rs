//! The per-triangle tile filter and its axis-convention swap.
//!
//! A vertex here carries its three components as opaque scalar codes: the
//! application layer encodes each floating-point component as its bit
//! pattern before handing a triangle in, and decodes it afterwards. The
//! filter never interprets a code; membership in a tile is decided from the
//! vertex's planar tile indices, which the application computes with the
//! world-to-tile transform from the first and third components. That keeps
//! the decision and the component swap verified while the floating-point
//! arithmetic stays outside.

use vstd::prelude::*;

verus! {

/// One mesh vertex: three world-space components as opaque scalar codes.
/// The first component is the planar world x; in the mesh source's
/// convention the third component is the other planar axis and the second
/// is height.
#[derive(Clone, Copy, Debug, PartialEq, Eq, Structural)]
pub struct Vertex {
    pub x: u32,
    pub y: u32,
    pub z: u32,
}

/// One mesh triangle: an ordered triple of vertices. No winding requirement
/// is enforced here; winding is the downstream engine's concern.
#[derive(Clone, Copy, Debug, PartialEq, Eq, Structural)]
pub struct Triangle {
    pub a: Vertex,
    pub b: Vertex,
    pub c: Vertex,
}

/// The planar tile indices of one vertex: the tile index of its world x
/// component and of its third (planar) component, as the world-to-tile
/// transform yields them.
#[derive(Clone, Copy, Debug, PartialEq, Eq, Structural)]
pub struct PlanarTile {
    pub x: u32,
    pub z: u32,
}

impl Triangle {
    pub fn new(a: Vertex, b: Vertex, c: Vertex) -> (t: Triangle)
        ensures
            t == (Triangle { a, b, c }),
    {
        Triangle { a, b, c }
    }
}

/// A vertex with its second and third components exchanged: the mesh source
/// has height in the third component, the downstream engine wants it in the
/// second.
pub open spec fn swapped_vertex(v: Vertex) -> Vertex {
    Vertex { x: v.x, y: v.z, z: v.y }
}

/// A triangle with every vertex's second and third components exchanged.
pub open spec fn swapped_triangle(t: Triangle) -> Triangle {
    Triangle { a: swapped_vertex(t.a), b: swapped_vertex(t.b), c: swapped_vertex(t.c) }
}

/// Exchanges a vertex's second and third components.
pub fn swap_vector_y_z(vector: Vertex) -> (r: Vertex)
    ensures
        r == swapped_vertex(vector),
{
    Vertex { x: vector.x, y: vector.z, z: vector.y }
}

/// Exchanges the second and third components of every vertex of a triangle.
pub fn swap_triangle_y_z(triangle: Triangle) -> (r: Triangle)
    ensures
        r == swapped_triangle(triangle),
{
    let a = swap_vector_y_z(triangle.a);
    let b = swap_vector_y_z(triangle.b);
    let c = swap_vector_y_z(triangle.c);
    Triangle::new(a, b, c)
}

/// The filter bound to one target tile for the duration of one file's
/// conversion: constructed once per file, reused for every triangle.
pub struct WowPreprocessor {
    pub tile_x: u32,
    pub tile_z: u32,
}

impl WowPreprocessor {
    /// True when a vertex with the given planar tile indices lies in the
    /// target tile on both planar axes.
    pub open spec fn same_tile(self, tile: PlanarTile) -> bool {
        self.tile_x == tile.x && self.tile_z == tile.z
    }

    /// Whether a triangle whose vertices have the given planar tile indices
    /// is kept for the target tile: it is as soon as any vertex matches.
    pub open spec fn keeps(self, a: PlanarTile, b: PlanarTile, c: PlanarTile) -> bool {
        self.same_tile(a) || self.same_tile(b) || self.same_tile(c)
    }

    pub fn new(tile_x: u32, tile_z: u32) -> (p: Self)
        ensures
            p == (WowPreprocessor { tile_x, tile_z }),
    {
        WowPreprocessor { tile_x, tile_z }
    }

    /// Decides whether one vertex lies in the target tile, from its planar
    /// tile indices.
    pub fn in_same_tile(&self, tile: PlanarTile) -> (r: bool)
        ensures
            r == self.same_tile(tile),
    {
        self.tile_x == tile.x && self.tile_z == tile.z
    }

    /// The per-triangle filter: `a_tile`, `b_tile` and `c_tile` are the
    /// planar tile indices of the triangle's three vertices. A triangle with
    /// all three vertices outside the target tile is discarded; any other
    /// triangle is kept unmodified in shape, with only the axis-convention
    /// swap applied to every vertex. A triangle that straddles the tile
    /// boundary is not clipped.
    pub fn pre_process(
        &self,
        triangle: Triangle,
        a_tile: PlanarTile,
        b_tile: PlanarTile,
        c_tile: PlanarTile,
    ) -> (r: Option<Triangle>)
        ensures
            r == if self.keeps(a_tile, b_tile, c_tile) {
                Some(swapped_triangle(triangle))
            } else {
                None::<Triangle>
            },
{
        let a_result = self.in_same_tile(a_tile);
        let b_result = self.in_same_tile(b_tile);
        let c_result = self.in_same_tile(c_tile);

        // Triangle completely out of tile: it contributes nothing here.
        if !a_result && !b_result && !c_result {
            return None;
        }

        Some(swap_triangle_y_z(triangle))
    }
}

} // verus!
