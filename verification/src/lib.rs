//! Tile addressing and mesh partitioning for a batch converter that turns
//! per-tile terrain meshes into per-tile grid artifacts.
//!
//! A world is a 64x64 grid of square tiles per map. Each input mesh file
//! carries its map identifier and tile coordinates in its name. This crate
//! holds the verified core: decoding tile identity from a file name, building
//! the mirrored output names, and the per-triangle membership filter with its
//! axis-convention swap. The floating-point transform between world
//! coordinates and tile indices lives in the application layer; the filter
//! here works on the integer tile indices that the transform yields.

mod mesh;
mod names;
mod progress;

pub use mesh::PlanarTile;
pub use mesh::Triangle;
pub use mesh::Vertex;
pub use mesh::WowPreprocessor;
pub use mesh::swap_triangle_y_z;
pub use mesh::swap_vector_y_z;
pub use progress::StdOutProgress;

pub use names::NameError;
pub use names::TileIdentity;
pub use names::decode_file_name;
pub use names::is_obj_name;
pub use names::map_dir_name;
pub use names::output_rel_path;
pub use names::tile_file_name;
pub use names::u32_to_string;
