//! A minimal sprite layer for a 2D rendering pipeline.
//!
//! A [`Sprite`] holds a position, a size, a render state and a portrait
//! ([`RenderInfo`]): nothing, a flat rectangle, or an image with its texture.
//! Drawing is split in two: the verified [`SpriteDescriptor::draw`] decides,
//! from the portrait and the current bounds, which draw call the backend
//! shall receive and returns it as a [`DrawCommand`]; the host render loop
//! issues that command against its graphics backend.

pub mod gfx;
pub mod position;
pub mod sprites;

pub use position::Positioned;
pub use sprites::DrawCommand;
pub use sprites::RenderInfo;
pub use sprites::Sprite;
pub use sprites::SpriteDescriptor;
