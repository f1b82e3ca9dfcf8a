//! Sprites: a positioned, drawable entity that wraps either a flat rectangle
//! or an image texture and describes how to render it under an affine
//! transform.

use vstd::prelude::*;

use crate::gfx::draw_state_default;
use crate::gfx::image_new;
use crate::position::Positioned;
use graphics::draw_state::DrawState;
use graphics::image::Image;
use graphics::rectangle::Rectangle;
use opengl_graphics::Texture;

verus! {

/// The rendering information for a sprite: nothing, a flat rectangle, or an
/// image together with the texture it samples. Exactly one of the three is
/// active at a time; the texture is owned by the variant that holds it.
pub enum RenderInfo {
    Empty,
    Rectangle(Rectangle),
    Image(Image, Texture),
}

impl RenderInfo {
    /// Builds an image portrait around an already loaded texture, with the
    /// default image descriptor.
    ///
    /// Loading the texture itself is file I/O and lives with the host: the
    /// host must treat a failed load as fatal and never hand a texture here,
    /// so no failure path exists in this constructor.
    pub fn new_image(tex: Texture) -> (r: RenderInfo)
        ensures
            r matches RenderInfo::Image(_, t) && t == tex,
    {
        RenderInfo::Image(image_new(), tex)
    }
}

/// One draw call, ready for a graphics backend: everything `draw` decided,
/// handed to the host render loop to issue. `M` is the backend's affine
/// transform type, carried through untouched.
pub enum DrawCommand<'a, M> {
    /// Issue a filled/stroked rectangle over `bounds` (`[x, y, w, h]`).
    Rectangle {
        rect: &'a Rectangle,
        bounds: [i64; 4],
        draw_state: &'a DrawState,
        transform: M,
    },
    /// Issue a textured quad for `image`, sampling `texture`.
    Image {
        image: &'a Image,
        texture: &'a Texture,
        draw_state: &'a DrawState,
        transform: M,
    },
}

/// What drawing decides: an empty portrait issues no call; a rectangle
/// portrait issues exactly one rectangle call with the entity's current
/// bounds; an image portrait issues exactly one image call with the held
/// descriptor and texture. Either call carries the entity's render state and
/// the supplied transform.
pub open spec fn draw_dispatch<'a, M>(
    portrait: RenderInfo,
    ds: DrawState,
    x: int,
    y: int,
    w: int,
    h: int,
    tf: M,
    cmd: Option<DrawCommand<'a, M>>,
) -> bool {
    match portrait {
        RenderInfo::Empty => cmd is None,
        RenderInfo::Rectangle(r) => {
            &&& cmd matches Some(DrawCommand::Rectangle { rect, bounds, draw_state, transform })
            &&& *rect == r
            &&& bounds[0] as int == x
            &&& bounds[1] as int == y
            &&& bounds[2] as int == w
            &&& bounds[3] as int == h
            &&& *draw_state == ds
            &&& transform == tf
        },
        RenderInfo::Image(img, tex) => {
            &&& cmd matches Some(DrawCommand::Image { image, texture, draw_state, transform })
            &&& *image == img
            &&& *texture == tex
            &&& *draw_state == ds
            &&& transform == tf
        },
    }
}

/// The drawable capability: a positioned entity that can describe, for any
/// transform, the draw call it wants issued. `M` is the backend's transform
/// type.
pub trait SpriteDescriptor<M>: Positioned {
    /// The rendering information this entity currently draws.
    spec fn portrait_of(&self) -> RenderInfo;

    /// The render state it draws with.
    spec fn draw_state_of(&self) -> DrawState;

    /// The current width.
    spec fn size_w(&self) -> int;

    /// The current height.
    spec fn size_h(&self) -> int;

    /// Decides the draw call for transform `tf`, per [`draw_dispatch`]:
    /// `None` exactly when there is nothing to draw, else exactly one
    /// command built from the current portrait, bounds and render state.
    /// Reads the entity; never mutates it.
    fn draw<'a>(&'a self, tf: M) -> (cmd: Option<DrawCommand<'a, M>>)
        ensures
            draw_dispatch(
                self.portrait_of(),
                self.draw_state_of(),
                self.pos_x(),
                self.pos_y(),
                self.size_w(),
                self.size_h(),
                tf,
                cmd,
            ),
    ;
}

/// An object that can be drawn to the screen: position and size in world
/// units, a render state, and the current portrait. The host render loop
/// owns the graphics backend and issues the commands this sprite decides.
pub struct Sprite {
    pub draw_state: DrawState,
    pub portrait: RenderInfo,
    pub x: i64,
    pub y: i64,
    pub w: i64,
    pub h: i64,
}

impl Sprite {
    /// A fresh sprite: zeroed position and size, the default render state,
    /// and nothing to draw.
    pub fn new() -> (s: Sprite)
        ensures
            s.x == 0,
            s.y == 0,
            s.w == 0,
            s.h == 0,
            s.portrait is Empty,
    {
        Sprite {
            x: 0,
            y: 0,
            w: 0,
            h: 0,
            draw_state: draw_state_default(),
            portrait: RenderInfo::Empty,
        }
    }
}

impl Positioned for Sprite {
    open spec fn pos_x(&self) -> int {
        self.x as int
    }

    open spec fn pos_y(&self) -> int {
        self.y as int
    }

    open spec fn at_position(self, x: i64, y: i64) -> Sprite {
        Sprite { x, y, ..self }
    }

    fn get_position(&self) -> (p: (i64, i64)) {
        (self.x, self.y)
    }

    fn set_position(&mut self, x: i64, y: i64) {
        self.x = x;
        self.y = y;
    }

    fn shift_position(&mut self, dx: i64, dy: i64) {
        self.x = self.x + dx;
        self.y = self.y + dy;
    }
}

impl<M> SpriteDescriptor<M> for Sprite {
    open spec fn portrait_of(&self) -> RenderInfo {
        self.portrait
    }

    open spec fn draw_state_of(&self) -> DrawState {
        self.draw_state
    }

    open spec fn size_w(&self) -> int {
        self.w as int
    }

    open spec fn size_h(&self) -> int {
        self.h as int
    }

    fn draw<'a>(&'a self, tf: M) -> (cmd: Option<DrawCommand<'a, M>>) {
        match &self.portrait {
            RenderInfo::Empty => None,
            RenderInfo::Rectangle(rect) => Some(
                DrawCommand::Rectangle {
                    rect,
                    bounds: [self.x, self.y, self.w, self.h],
                    draw_state: &self.draw_state,
                    transform: tf,
                },
            ),
            RenderInfo::Image(image, texture) => Some(
                DrawCommand::Image {
                    image,
                    texture,
                    draw_state: &self.draw_state,
                    transform: tf,
                },
            ),
        }
    }
}

/// Law: setting the position and reading it back returns exactly the point
/// that was set, whatever the sprite held before.
pub proof fn lemma_set_then_get(s: Sprite, x: i64, y: i64)
    ensures
        s.at_position(x, y).pos_x() == x as int,
        s.at_position(x, y).pos_y() == y as int,
{
}

/// Law: shifting by `(dx, dy)` right after setting the position to
/// `(x0, y0)` lands at `(x0 + dx, y0 + dy)`, whatever the sprite held
/// before; the two steps collapse to one set at the sum.
pub proof fn lemma_set_then_shift(s: Sprite, x0: i64, y0: i64, dx: i64, dy: i64)
    requires
        i64::MIN <= x0 + dx <= i64::MAX,
        i64::MIN <= y0 + dy <= i64::MAX,
    ensures
        s.at_position(x0, y0).at_position(((x0 + dx) as i64), ((y0 + dy) as i64)).pos_x() == x0
            + dx,
        s.at_position(x0, y0).at_position(((x0 + dx) as i64), ((y0 + dy) as i64)).pos_y() == y0
            + dy,
        s.at_position(x0, y0).at_position(((x0 + dx) as i64), ((y0 + dy) as i64)) == s.at_position(
            ((x0 + dx) as i64),
            ((y0 + dy) as i64),
        ),
{
}

} // verus!
