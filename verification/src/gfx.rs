//! Declarations for the graphics backend types that a sprite carries, and
//! wrappers around the backend constructors its logic calls.
//!
//! The backend types are opaque here: the library stores them and hands them
//! back in draw commands, but never looks inside one.

use vstd::prelude::*;

verus! {

/// Declares `graphics::rectangle::Rectangle`, the flat-rectangle descriptor
/// (color, corner shape, border) that a rectangle portrait holds.
#[verifier::external_type_specification]
#[verifier::external_body]
pub struct ExRectangle(graphics::rectangle::Rectangle);

/// Declares `graphics::image::Image`, the textured-quad descriptor that an
/// image portrait holds.
#[verifier::external_type_specification]
#[verifier::external_body]
pub struct ExImage(graphics::image::Image);

/// Declares `graphics::draw_state::DrawState`, the render state (clipping,
/// blending, stencil) applied to whatever a sprite draws.
#[verifier::external_type_specification]
#[verifier::external_body]
pub struct ExDrawState(graphics::draw_state::DrawState);

/// Declares `opengl_graphics::Texture`, the loaded texture resource owned by
/// an image portrait.
#[verifier::external_type_specification]
#[verifier::external_body]
pub struct ExTexture(opengl_graphics::Texture);

/// Relies on `graphics::image::Image::new`: builds the default image
/// descriptor (no color override, no target or source rectangle).
#[verifier::external_body]
pub(crate) fn image_new() -> graphics::image::Image {
    graphics::image::Image::new()
}

/// Relies on `graphics::draw_state::DrawState::default`: builds the default
/// render state (alpha blending, no clipping, no stencil).
#[verifier::external_body]
pub(crate) fn draw_state_default() -> graphics::draw_state::DrawState {
    graphics::draw_state::DrawState::default()
}

} // verus!
