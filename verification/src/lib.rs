//! A minimal rendering coordinator: sprites are registered with an image and
//! user-defined behaviour, their images are uploaded to the device by a pool
//! of workers, and one loop presents what was uploaded, frame after frame.
//!
//! This crate holds the decisions of that pipeline and the data they are
//! made on. Threads, locks, the window and the device belong to the caller,
//! who performs what the state machines in [`render`] ask for.

use image::{DynamicImage, ImageError};
use vstd::prelude::*;
use vstd::string::*;

pub mod entity;
pub mod framecounter;
pub mod pixels;
pub mod render;

use crate::entity::{Entity, Rect, Texture};
use crate::pixels::{fits_in_memory, image_dimensions, image_rgba, rgba_len};
use crate::render::ingestion::UploadJob;

verus! {

/// The frame limit of a new session, in frames per second.
pub const DEFAULT_FRAMELIMIT: u16 = 144;

/// How long the entity update loop sleeps between two ticks, in
/// milliseconds: a sixtieth of a second, rounded down.
pub const UPDATE_PERIOD_MILLIS: u64 = 1000 / 60;

/// The settings of a session.
#[derive(Debug, Clone, Copy, PartialEq, Eq, Structural)]
pub struct Settings {
    pub framelimit: u16,
}

/// The session: every registered sprite, in registration order.
pub struct Game {
    pub settings: Settings,
    pub textures: Vec<Texture>,
}

/// What the window's event loop is told after each event.
#[derive(Clone, Copy, Debug, PartialEq, Eq, Structural)]
pub enum ControlFlow {
    Continue,
    Break,
}

/// The event loop goes on until the window is asked to close.
pub fn control_flow(close_requested: bool) -> (flow: ControlFlow)
    ensures
        flow == if close_requested {
            ControlFlow::Break
        } else {
            ControlFlow::Continue
        },
{
    if close_requested {
        ControlFlow::Break
    } else {
        ControlFlow::Continue
    }
}

/// The message of a failed registration: the path of the image and why it
/// could not be loaded.
pub open spec fn load_failure_text(img_path: Seq<char>, reason: Seq<char>) -> Seq<char> {
    "Could not open "@ + img_path + ": "@ + reason
}

/// Why an image that was decoded is not registered: its RGBA copy would not
/// fit in a buffer.
pub open spec fn too_large_text() -> Seq<char> {
    "image is too large"@
}

/// Builds the message of a failed registration.
pub fn load_failure(img_path: &str, reason: &str) -> (message: String)
    ensures
        message@ == load_failure_text(img_path@, reason@),
{
    let mut message = String::from_str("Could not open ");
    message.append(img_path);
    message.append(": ");
    message.append(reason);
    message
}

impl Game {
    /// A session without sprites.
    pub fn init() -> (game: Self)
        ensures
            game.textures@ == Seq::<Texture>::empty(),
            game.settings == (Settings { framelimit: DEFAULT_FRAMELIMIT }),
    {
        Game { settings: Settings { framelimit: DEFAULT_FRAMELIMIT }, textures: Vec::new() }
    }

    /// Registers a sprite. `opened` is what opening the image at `img_path`
    /// gave.
    ///
    /// A decoded image whose RGBA copy fits in memory is registered: the
    /// entity is initialized and the sprite is appended with the image's
    /// pixels and dimensions. In every other case the session stays as it
    /// is, the entity is dropped as it came, and the result is a message
    /// that starts with the path.
    pub fn connect(
        &mut self,
        entity: Box<dyn Entity>,
        rect: Rect,
        img_path: &str,
        opened: Result<DynamicImage, ImageError>,
    ) -> (result: Result<(), String>)
        ensures
            opened matches Ok(img) ==> if fits_in_memory(image_dimensions(img)) {
                &&& result is Ok
                &&& final(self).textures@.len() == old(self).textures@.len() + 1
                &&& final(self).textures@.drop_last() == old(self).textures@
                &&& final(self).textures@.last().rect == rect
                &&& final(self).textures@.last().sprite.0@ == image_rgba(img)
                &&& final(self).textures@.last().sprite.0@.len() == rgba_len(image_dimensions(img))
                &&& final(self).textures@.last().sprite.1 == image_dimensions(img)
            } else {
                &&& final(self).textures@ == old(self).textures@
                &&& result matches Err(message)
                &&& message@ == load_failure_text(img_path@, too_large_text())
            },
            opened is Err ==> {
                &&& final(self).textures@ == old(self).textures@
                &&& result matches Err(message)
                &&& exists|reason: Seq<char>|
                    message@ == #[trigger] load_failure_text(img_path@, reason)
            },
            final(self).settings == old(self).settings,
    {
        match opened {
            Err(e) => {
                let reason = crate::pixels::error_text(&e);
                Err(load_failure(img_path, reason.as_str()))
            },
            Ok(img) => {
                let (w, h) = crate::pixels::dimensions(&img);
                if !Self::fits(w, h) {
                    return Err(load_failure(img_path, "image is too large"));
                }
                let raw = crate::pixels::to_rgba(&img);
                let mut entity = entity;
                entity.init();
                self.textures.push(Texture::new(rect, entity, raw, (w, h)));
                assert(self.textures@.drop_last() =~= old(self).textures@);
                Ok(())
            },
        }
    }

    /// Decides `fits_in_memory`.
    fn fits(w: u32, h: u32) -> (fits: bool)
        ensures
            fits == fits_in_memory((w, h)),
    {
        proof {
            assert(0 <= w * h <= 0xffff_ffff * 0xffff_ffff) by (nonlinear_arith)
                requires
                    0 <= w <= 0xffff_ffff,
                    0 <= h <= 0xffff_ffff,
            ;
            assert(4 * w * h == 4 * (w * h)) by (nonlinear_arith);
        }
        let pixels: u64 = (w as u64) * (h as u64);
        let limit: u64 = (isize::MAX as u64) / 4;
        pixels <= limit
    }

    /// One upload job per sprite, in registration order. Each job holds a
    /// copy of the sprite's pixels, its dimensions and its rectangle as it
    /// is now.
    pub fn upload_jobs(&self) -> (jobs: Vec<UploadJob>)
        ensures
            jobs@.len() == self.textures@.len(),
            forall|i: int|
                0 <= i < jobs@.len() ==> {
                    &&& (#[trigger] jobs@[i]).pixels@ == self.textures@[i].sprite.0@
                    &&& jobs@[i].dimensions == self.textures@[i].sprite.1
                    &&& jobs@[i].rect == self.textures@[i].rect
                },
    {
        let mut jobs: Vec<UploadJob> = Vec::new();
        let n = self.textures.len();
        let mut i: usize = 0;
        while i < n
            invariant
                i <= n,
                n == self.textures@.len(),
                jobs@.len() == i,
                forall|j: int|
                    0 <= j < i ==> {
                        &&& (#[trigger] jobs@[j]).pixels@ == self.textures@[j].sprite.0@
                        &&& jobs@[j].dimensions == self.textures@[j].sprite.1
                        &&& jobs@[j].rect == self.textures@[j].rect
                    },
            decreases n - i,
        {
            let texture = &self.textures[i];
            let pixels = texture.sprite.0.clone();
            assert(pixels@ =~= texture.sprite.0@);
            jobs.push(UploadJob { pixels, dimensions: texture.sprite.1, rect: texture.rect });
            i += 1;
        }
        jobs
    }

    /// One tick of the entity update loop: every sprite's behaviour runs
    /// once on its rectangle, in registration order. Each sprite after the
    /// tick is what one call of `Texture::update` made of the sprite
    /// before it. No sprite comes or goes, and no sprite's image changes.
    pub fn update_entities(&mut self)
        ensures
            final(self).textures@.len() == old(self).textures@.len(),
            forall|i: int|
                0 <= i < old(self).textures@.len() ==> {
                    &&& (#[trigger] final(self).textures@[i]).sprite
                        == old(self).textures@[i].sprite
                    &&& exists|sprite: &mut Texture|
                        {
                            &&& #[trigger] call_ensures(Texture::update, (sprite,), ())
                            &&& mut_ref_current(sprite) == old(self).textures@[i]
                            &&& mut_ref_future(sprite) == final(self).textures@[i]
                        }
                },
            final(self).settings == old(self).settings,
    {
        let n = self.textures.len();
        let mut i: usize = 0;
        while i < n
            invariant
                i <= n,
                n == self.textures@.len(),
                self.textures@.len() == old(self).textures@.len(),
                forall|j: int|
                    0 <= j < i ==> {
                        &&& (#[trigger] self.textures@[j]).sprite == old(self).textures@[j].sprite
                        &&& exists|sprite: &mut Texture|
                            {
                                &&& #[trigger] call_ensures(Texture::update, (sprite,), ())
                                &&& mut_ref_current(sprite) == old(self).textures@[j]
                                &&& mut_ref_future(sprite) == self.textures@[j]
                            }
                    },
                forall|j: int| i <= j < n ==> #[trigger] self.textures@[j] == old(self).textures@[j],
                self.settings == old(self).settings,
            decreases n - i,
        {
            let texture = &mut self.textures[i];
            texture.update();
            i += 1;
        }
    }
}

} // verus!
