[package]
name = "wow_obj_to_pathfinding_grid"
version = "0.1.0"
edition = "2021"
publish = false

[dependencies]
nalgebra = "*"
obj = "*"
structopt = "*"
