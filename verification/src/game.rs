//! The game's one scene: bright things on a dark ground, seen through bloom.

use crate::color::Rgb;
use vstd::prelude::*;

verus! {

/// How the camera brings the scene's brightness into what a display shows.
#[derive(Clone, Copy, PartialEq, Eq, Hash, Debug, Structural)]
pub enum Tonemapping {
    /// Channels are cut off at full intensity.
    Plain,
    /// Colours fade to white as they grow brighter.
    TonyMcMapface,
}

/// The camera that looks at the scene.
#[derive(Clone, Copy, PartialEq, Eq, Hash, Debug, Structural)]
pub struct Camera {
    /// Whether the camera renders beyond the range of the display.
    pub hdr: bool,
    pub tonemapping: Tonemapping,
    /// Whether bright regions are blurred and laid over the frame.
    pub bloom: bool,
}

/// A picture drawn flat, at the middle of the scene.
#[derive(PartialEq, Eq, Debug)]
pub struct Sprite {
    /// Where the picture is found among the assets.
    pub texture: String,
    /// The colour by which the picture is multiplied.
    pub color: Rgb,
    /// The side of the square that the picture fills.
    pub size: u32,
}

/// The outline of a filled shape.
#[derive(Clone, Copy, PartialEq, Eq, Hash, Debug, Structural)]
pub enum Outline {
    Circle,
    /// A polygon with so many equal sides.
    RegularPolygon { sides: usize },
}

/// A filled shape of one colour.
#[derive(Clone, Copy, PartialEq, Eq, Hash, Debug, Structural)]
pub struct Shape {
    pub outline: Outline,
    /// From the middle to the outline, or to a corner of it.
    pub radius: u32,
    pub color: Rgb,
    /// Where the middle of the shape lies.
    pub x: i32,
    pub y: i32,
    pub z: i32,
}

/// All that the scene holds.
#[derive(PartialEq, Eq, Debug)]
pub struct Scene {
    pub camera: Camera,
    pub sprite: Sprite,
    pub shapes: Vec<Shape>,
}

impl Shape {
    /// Whether the shape can be drawn and glows: it has an extent, a polygon
    /// has at least three sides, and the colour is brighter than the display.
    pub open spec fn well_formed(self) -> bool {
        &&& self.radius > 0
        &&& self.outline matches Outline::RegularPolygon { sides } ==> sides > 2
        &&& self.color.glows()
    }
}

impl Scene {
    /// Whether the scene shows bloom: the camera blooms, which needs a
    /// camera that renders beyond the display's range, and everything in
    /// the scene is bright enough to glow.
    pub open spec fn well_formed(self) -> bool {
        &&& self.camera.bloom
        &&& self.camera.hdr
        &&& self.sprite.size > 0
        &&& self.sprite.color.glows()
        &&& forall|i: int| 0 <= i < self.shapes@.len() ==> (#[trigger] self.shapes@[i]).well_formed()
    }
}

/// The circle on the left: magenta, seven and a half times full intensity.
pub open spec fn spec_circle() -> Shape {
    Shape {
        outline: Outline::Circle,
        radius: 100,
        color: Rgb { red: 750, green: 0, blue: 750 },
        x: (-200) as i32,
        y: 0,
        z: 0,
    }
}

/// The hexagon on the right: a pale, very bright cyan.
pub open spec fn spec_hexagon() -> Shape {
    Shape {
        outline: Outline::RegularPolygon { sides: 6 },
        radius: 100,
        color: Rgb { red: 625, green: 940, blue: 910 },
        x: 200,
        y: 0,
        z: 0,
    }
}

/// Builds the scene: a camera with bloom, the icon in the middle at five
/// times full intensity, a circle to its left and a hexagon to its right.
pub fn setup() -> (scene: Scene)
    ensures
        scene.well_formed(),
        scene.camera == (Camera { hdr: true, tonemapping: Tonemapping::TonyMcMapface, bloom: true }),
        scene.sprite.texture@ == "branding/icon.png"@,
        scene.sprite.color == (Rgb { red: 500, green: 500, blue: 500 }),
        scene.sprite.size == 160,
        scene.shapes@ == seq![spec_circle(), spec_hexagon()],
{
    let camera = Camera { hdr: true, tonemapping: Tonemapping::TonyMcMapface, bloom: true };
    let sprite = Sprite {
        texture: "branding/icon.png".to_owned(),
        color: Rgb::new(500, 500, 500),
        size: 160,
    };
    let mut shapes: Vec<Shape> = Vec::new();
    shapes.push(
        Shape {
            outline: Outline::Circle,
            radius: 100,
            color: Rgb::new(750, 0, 750),
            x: -200,
            y: 0,
            z: 0,
        },
    );
    shapes.push(
        Shape {
            outline: Outline::RegularPolygon { sides: 6 },
            radius: 100,
            color: Rgb::new(625, 940, 910),
            x: 200,
            y: 0,
            z: 0,
        },
    );
    Scene { camera, sprite, shapes }
}

} // verus!
