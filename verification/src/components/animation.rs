use crate::components::position::Position;
use crate::value::JsonNumber;
use crate::globals::TestGlobalError;
use crate::world::{catalog_view, find_handle, handle_of, ImageDict, ResourcesView, World};
use vstd::prelude::*;

verus! {

pub const ANIMATION_FILE_ID: &'static str = "animation";

/// What an animation is loaded from: the name of its image and its frames.
#[derive(Debug, PartialEq, Eq)]
pub struct AnimationLoader {
    pub image: String,
    pub current_frame: u16,
    pub start_frame: u16,
    pub end_frame: u16,
    pub total_frames: u16,
    pub dimensions_x: u16,
    pub dimensions_y: u16,
    pub scale_x: JsonNumber,
    pub scale_y: JsonNumber,
}

/// A strip of frames in one image. Frames are counted from 1.
#[derive(Debug, Clone, Copy, PartialEq, Eq)]
pub struct Animation {
    /// The handle of the image in the image catalog.
    pub image: u64,
    pub current_frame: u16,
    pub start_frame: u16,
    pub end_frame: u16,
    pub total_frames: u16,
    pub dimensions: (u16, u16),
    pub scale: (JsonNumber, JsonNumber),
}

/// A part of an image, in whole pixels.
#[derive(Debug, Clone, Copy, PartialEq, Eq, Structural)]
pub struct Rectangle {
    pub x: u16,
    pub y: u16,
    pub width: u16,
    pub height: u16,
}

/// One frame of an animation, ready to be drawn.
#[derive(Debug, Clone, Copy, PartialEq, Eq)]
pub struct Sprite {
    pub source: Rectangle,
    pub position: (u16, u16),
    pub scale: (JsonNumber, JsonNumber),
}

/// What loading an animation comes to before any image is read.
#[derive(Debug, PartialEq, Eq)]
pub enum AnimationLoad {
    /// The image is in the catalog: the animation is complete.
    Ready(Animation),
    /// The image is not in the catalog: it is to be loaded from `path`, and
    /// `loader` makes the animation from its handle.
    LoadImage { path: String, loader: AnimationLoader },
}

impl AnimationLoader {
    /// The animation that the loader makes once the handle of its image is known.
    pub open spec fn animation(&self, image: u64) -> Animation {
        Animation {
            image,
            current_frame: self.current_frame,
            start_frame: self.start_frame,
            end_frame: self.end_frame,
            total_frames: self.total_frames,
            dimensions: (self.dimensions_x, self.dimensions_y),
            scale: (self.scale_x, self.scale_y),
        }
    }

    /// Makes the animation from the handle of its image.
    pub fn with_image(self, image: u64) -> (animation: Animation)
        ensures
            animation == self.animation(image),
    {
        Animation {
            image,
            current_frame: self.current_frame,
            start_frame: self.start_frame,
            end_frame: self.end_frame,
            total_frames: self.total_frames,
            dimensions: (self.dimensions_x, self.dimensions_y),
            scale: (self.scale_x, self.scale_y),
        }
    }

    /// Looks the image up in the image catalog of the world. An image that
    /// is there completes the animation. One that is not, or a world whose
    /// catalogs are not published yet, asks for the image to be loaded afresh
    /// from the path that is its name; `finish_load` takes the outcome.
    pub fn load_component(self, ecs: &World) -> (load: AnimationLoad)
        ensures
            match catalogued(ecs@.resources, self.image@) {
                Some(handle) => load matches AnimationLoad::Ready(animation) && animation
                    == self.animation(handle),
                None => load matches AnimationLoad::LoadImage { path, loader } && path@
                    == self.image@ && loader == self,
            },
    {
        let found = match ecs.resources() {
            Some(resources) => find_handle(&resources.image_dict.images, self.image.as_str()),
            None => None,
        };
        match found {
            Some(handle) => AnimationLoad::Ready(self.with_image(handle)),
            None => AnimationLoad::LoadImage { path: self.image.clone(), loader: self },
        }
    }

    /// Takes the outcome of loading the image afresh. A handle completes the
    /// animation and is filed in the catalog under the name of the image, after
    /// the entries that are there. A failure is handed on, and the catalog
    /// stays as it was.
    pub fn finish_load(self, images: &mut ImageDict, loaded: Result<u64, TestGlobalError>) -> (r:
        Result<Animation, TestGlobalError>)
        ensures
            match loaded {
                Ok(handle) => r == Ok::<Animation, TestGlobalError>(self.animation(handle))
                    && catalog_view(final(images).images@) == catalog_view(
                    old(images).images@,
                ).push((self.image@, handle)),
                Err(e) => r == Err::<Animation, TestGlobalError>(e) && *final(images) == *old(
                    images,
                ),
            },
    {
        match loaded {
            Ok(handle) => {
                let ghost before = images.images@;
                images.images.push((self.image.clone(), handle));
                assert(catalog_view(images.images@) =~= catalog_view(before).push(
                    (self.image@, handle),
                ));
                Ok(self.with_image(handle))
            },
            Err(e) => Err(e),
        }
    }
}

/// The handle under which the image catalog of a world holds `name`:
/// nothing where the catalogs are not published or the name is not filed.
pub open spec fn catalogued(resources: Option<ResourcesView>, name: Seq<char>) -> Option<u64> {
    match resources {
        Some(published) => handle_of(published.images, name),
        None => None,
    }
}

/// A handle that is filed under a name that the catalog lacks is found under
/// that name afterwards; a name that the catalog has keeps its handle, and
/// so does every other name.
pub proof fn lemma_filed_handle_is_found(
    entries: Seq<(Seq<char>, u64)>,
    name: Seq<char>,
    handle: u64,
    wanted: Seq<char>,
)
    ensures
        handle_of(entries.push((name, handle)), wanted) == (match handle_of(entries, wanted) {
            Some(found) => Some(found),
            None => if wanted == name {
                Some(handle)
            } else {
                None
            },
        }),
    decreases entries.len(),
{
    let filed = entries.push((name, handle));
    if entries.len() == 0 {
        assert(filed.subrange(1, filed.len() as int) =~= Seq::<(Seq<char>, u64)>::empty());
    } else {
        let rest = entries.subrange(1, entries.len() as int);
        assert(filed.subrange(1, filed.len() as int) =~= rest.push((name, handle)));
        assert(filed[0] == entries[0]);
        lemma_filed_handle_is_found(rest, name, handle, wanted);
    }
}

impl Animation {
    /// The width of one frame: the frames share the width of the image evenly.
    pub open spec fn frame_width(&self) -> int {
        self.dimensions.0 as int / self.total_frames as int
    }

    /// Cuts the current frame out of the image for an entity at `pos`, and
    /// steps to the next frame. The animation must have frames, the current
    /// frame must be counted from 1, and neither the place of the frame in
    /// the image nor the count of the next frame may pass `u16::MAX`.
    pub fn create_sprite(&mut self, pos: &Position) -> (sprite: Sprite)
        requires
            old(self).total_frames != 0,
            old(self).current_frame >= 1,
            old(self).frame_width() * (old(self).current_frame - 1) <= u16::MAX,
            old(self).current_frame < u16::MAX,
        ensures
            sprite == (Sprite {
                source: Rectangle {
                    x: (old(self).frame_width() * (old(self).current_frame - 1)) as u16,
                    y: pos.y,
                    width: old(self).frame_width() as u16,
                    height: old(self).dimensions.1,
                },
                position: (pos.x, pos.y),
                scale: old(self).scale,
            }),
            *final(self) == (Animation {
                current_frame: (old(self).current_frame + 1) as u16,
                ..*old(self)
            }),
    {
        let frame_width = self.dimensions.0 / self.total_frames;
        let frame_height = self.dimensions.1;
        let frame_x = frame_width * (self.current_frame - 1);
        let frame_y = pos.y;
        self.current_frame += 1;
        Sprite {
            source: Rectangle { x: frame_x, y: frame_y, width: frame_width, height: frame_height },
            position: (pos.x, pos.y),
            scale: self.scale,
        }
    }
}

} // verus!
