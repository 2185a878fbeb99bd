//! Safe plumbing around a callback-driven JPEG codec engine: the geometry
//! of subsampled planes, and the adapters that carry the engine's buffer
//! protocol over ordinary byte streams.
pub mod colorspace;
pub mod component;
pub mod compress;
pub mod decompress;
pub mod density;
pub mod engine;
pub mod errormgr;
pub mod marker;
pub mod qtable;
pub mod raw;
pub mod readsrc;
pub mod roundtrip;
pub mod scanlines;
pub mod stream;
pub mod vec;
pub mod writedst;

pub use crate::colorspace::ColorSpace;
pub use crate::colorspace::ColorSpaceExt;
pub use crate::component::CompInfo;
pub use crate::component::CompInfoExt;
pub use crate::compress::Compress;
pub use crate::compress::ScanMode;
pub use crate::decompress::{DctMethod, Decompress, DecompressBuilder, Format, MarkerData, MarkerIter};
pub use crate::density::{PixelDensity, PixelDensityUnit};
pub use crate::marker::Marker;
pub use crate::vec::VecUninitExtender;
