//! Decoding of compressed raster images into RGBA8 buffers, and packing of
//! several decoded images into one atlas laid out as a grid with a fixed
//! number of columns.
//!
//! One input is decoded by [`decode_img`], which hands it to the JPEG decoder
//! or to the decoder that finds the format itself ([`dispatch`] says which).
//! Decoded images are packed by [`pack_imgs`]; [`decode_pack_imgs`] does both.

pub mod atlas;
pub mod blit;
pub mod decode;
pub mod layout;
pub mod pipeline;
pub mod placement;
pub mod raster;
pub mod ymm;

pub use atlas::{pack_imgs, CompositorError};
pub use decode::{decode_generic, decode_img, decode_jpeg, dispatch, DecodeError, Route};
pub use pipeline::{decode_pack_imgs, PackError};
pub use raster::Image;
