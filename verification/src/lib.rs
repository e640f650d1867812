//! A fixed-point fluid grid: the integer side of a small stable-fluids
//! simulation (cell indexing, boundary conditions on the packed `u16`
//! fields, the dye-to-colour conversion) and a packed 10-bit RGB colour.

pub mod color;
pub mod controls;
pub mod grid;
pub mod rgb;
