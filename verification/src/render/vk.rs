//! The draw list and the wait list, and what is done with them: uploads
//! append to both, every frame synchronizes the one and takes the other, and
//! each draw record gives one quad.

use vstd::prelude::*;

use crate::entity::{Rect, Texture};
use crate::render::presentation::FrameEnd;
use crate::render::vkinit::{
    dynamic_state_for, framebuffers_for, DynamicState, Viewport, VkSession,
};

verus! {

/// A sprite that is resident on the device: the handle `texture` that a draw
/// call binds, the rectangle it is drawn at, and the image's width and
/// height in pixels.
#[derive(Debug, PartialEq)]
pub struct DrawRecord<T> {
    pub texture: T,
    pub rect: Rect,
    pub dimensions: (u32, u32),
}

/// The draw list: one record per uploaded sprite, in the order in which the
/// uploads completed.
pub type DrawBuffer<T> = Vec<DrawRecord<T>>;

/// The wait list: the completion signals of the uploads that no frame has
/// waited for yet, oldest first.
pub type WaitBuffer<S> = Vec<S>;

/// The rectangles of the sprites, in registration order.
pub open spec fn rectangles(textures: Seq<Texture>) -> Seq<Rect> {
    textures.map_values(|texture: Texture| texture.rect)
}

/// A draw record after it was compared with its sprite's rectangle: it takes
/// the sprite's rectangle over if the two differ as numbers.
pub open spec fn refreshed<T>(record: DrawRecord<T>, rect: Rect) -> DrawRecord<T> {
    if rect.same_numbers(record.rect) {
        record
    } else {
        DrawRecord { rect, ..record }
    }
}

/// The draw list after one synchronization pass: record `i` is compared with
/// sprite `i`. Records without a sprite stay as they are.
pub open spec fn synchronized<T>(rects: Seq<Rect>, draws: Seq<DrawRecord<T>>) -> Seq<
    DrawRecord<T>,
> {
    Seq::new(
        draws.len(),
        |i: int|
            if i < rects.len() {
                refreshed(draws[i], rects[i])
            } else {
                draws[i]
            },
    )
}

/// One synchronization pass over the draw list.
pub fn sync_rectangles<T>(textures: &Vec<Texture>, draw_buffer: &mut DrawBuffer<T>)
    ensures
        final(draw_buffer)@ == synchronized(rectangles(textures@), old(draw_buffer)@),
{
    let n = if textures.len() < draw_buffer.len() {
        textures.len()
    } else {
        draw_buffer.len()
    };
    let mut i: usize = 0;
    while i < n
        invariant
            i <= n,
            n <= textures.len(),
            n <= old(draw_buffer).len(),
            draw_buffer.len() == old(draw_buffer).len(),
            forall|j: int|
                0 <= j < i ==> draw_buffer[j] == refreshed(
                    old(draw_buffer)[j],
                    #[trigger] textures[j].rect,
                ),
            forall|j: int| i <= j < draw_buffer.len() ==> draw_buffer[j] == old(draw_buffer)[j],
        decreases n - i,
    {
        if textures[i].rect != draw_buffer[i].rect {
            draw_buffer[i].rect = textures[i].rect;
        }
        i += 1;
    }
}

/// After a synchronization pass no record is stale: every record that has
/// a sprite shows the sprite's rectangle, as the same patterns or as the
/// same numbers, whatever the rectangles were before. The pass changes
/// nothing else: the list keeps its length, and every record its texture
/// and dimensions.
pub proof fn lemma_sync_leaves_no_record_stale<T>(rects: Seq<Rect>, draws: Seq<DrawRecord<T>>)
    ensures
        synchronized(rects, draws).len() == draws.len(),
        forall|i: int|
            0 <= i < draws.len() ==> {
                &&& (#[trigger] synchronized(rects, draws)[i]).texture == draws[i].texture
                &&& synchronized(rects, draws)[i].dimensions == draws[i].dimensions
            },
        forall|i: int|
            0 <= i < draws.len() && i < rects.len() ==> (#[trigger] synchronized(
                rects,
                draws,
            )[i]).rect.matches(rects[i]),
        forall|i: int|
            rects.len() <= i < draws.len() ==> #[trigger] synchronized(rects, draws)[i]
                == draws[i],
{
}

/// A record is refreshed only where it differs: a pass over records that
/// equal their sprites' rectangles as numbers changes nothing, and a second
/// pass over the same rectangles changes nothing after the first.
pub proof fn lemma_sync_is_idempotent<T>(rects: Seq<Rect>, draws: Seq<DrawRecord<T>>)
    ensures
        synchronized(rects, synchronized(rects, draws)) == synchronized(rects, draws),
        (forall|i: int|
            0 <= i < draws.len() && i < rects.len() ==> rects[i].same_numbers(
                (#[trigger] draws[i]).rect,
            )) ==> synchronized(rects, draws) == draws,
{
    assert(synchronized(rects, synchronized(rects, draws)) =~= synchronized(rects, draws));
    if forall|i: int|
        0 <= i < draws.len() && i < rects.len() ==> rects[i].same_numbers(
            (#[trigger] draws[i]).rect,
        ) {
        assert(synchronized(rects, draws) =~= draws);
    }
}

/// Appends what one finished upload produced: its record to the draw list,
/// its completion signal to the wait list.
pub fn publish<T, S>(
    draw_buffer: &mut DrawBuffer<T>,
    wait_buffer: &mut WaitBuffer<S>,
    record: DrawRecord<T>,
    signal: S,
)
    ensures
        final(draw_buffer)@ == old(draw_buffer)@.push(record),
        final(wait_buffer)@ == old(wait_buffer)@.push(signal),
{
    draw_buffer.push(record);
    wait_buffer.push(signal);
}

/// Something that a frame waits for before it executes.
#[derive(Debug, PartialEq, Eq)]
pub enum Dependency<F, A, S> {
    /// The end of the frame before.
    PreviousFrame(FrameEnd<F>),
    /// The readiness of the swapchain image that was acquired.
    ImageReady(A),
    /// The completion of a texture upload.
    Upload(S),
}

/// The dependencies of a frame, in the order in which they are joined: the
/// previous frame's end, the acquired image, then the pending uploads from
/// the oldest on.
pub open spec fn dependencies_of<F, A, S>(
    previous_frame_end: FrameEnd<F>,
    image_ready: A,
    pending: Seq<S>,
) -> Seq<Dependency<F, A, S>> {
    seq![Dependency::PreviousFrame(previous_frame_end), Dependency::ImageReady(image_ready)]
        + pending.map_values(|signal: S| Dependency::Upload(signal))
}

/// Collects what the frame under construction waits for, and empties the
/// wait list: every signal in it goes to this frame and to no other.
pub fn gather_dependencies<F, A, S>(
    previous_frame_end: FrameEnd<F>,
    image_ready: A,
    wait_buffer: &mut WaitBuffer<S>,
) -> (dependencies: Vec<Dependency<F, A, S>>)
    ensures
        dependencies@ == dependencies_of(previous_frame_end, image_ready, old(wait_buffer)@),
        final(wait_buffer)@ == Seq::<S>::empty(),
{
    let mut pending: Vec<S> = Vec::new();
    core::mem::swap(&mut pending, wait_buffer);
    let mut dependencies: Vec<Dependency<F, A, S>> = Vec::new();
    dependencies.push(Dependency::PreviousFrame(previous_frame_end));
    dependencies.push(Dependency::ImageReady(image_ready));
    let ghost head = dependencies@;
    for signal in it: pending
        invariant
            dependencies@ == head + it.seq().take(it.index()).map_values(
                |signal: S| Dependency::<F, A, S>::Upload(signal),
            ),
    {
        dependencies.push(Dependency::Upload(signal));
    }
    dependencies
}

/// One corner of a sprite's quad. `position` holds two coordinate patterns;
/// the two dimensions are pixel counts, from which the vertex stage derives
/// the scale of the sprite: image size over window size.
#[derive(Debug, Clone, Copy, PartialEq, Eq)]
pub struct Vertex {
    pub position: [u32; 2],
    pub window_dimensions: [u32; 2],
    pub image_dimensions: [u32; 2],
}

impl Vertex {
    /// The corner at `(x, y)` of a sprite of `image` pixels in a window of
    /// `window` pixels.
    pub open spec fn corner(x: u32, y: u32, window: [u32; 2], image: (u32, u32)) -> Vertex {
        Vertex {
            position: [x, y],
            window_dimensions: window,
            image_dimensions: [image.0, image.1],
        }
    }

    /// The quad of a sprite as a triangle strip: top-left, bottom-left,
    /// top-right, bottom-right. The near corner is the rectangle's position;
    /// `far` is the opposite corner, the position moved by twice the
    /// rectangle's extent, which the caller computes.
    pub fn from(r: Rect, far: (u32, u32), window: [u32; 2], image: (u32, u32)) -> (quad: [Vertex; 4])
        ensures
            quad[0] == Vertex::corner(r.position_x, r.position_y, window, image),
            quad[1] == Vertex::corner(r.position_x, far.1, window, image),
            quad[2] == Vertex::corner(far.0, r.position_y, window, image),
            quad[3] == Vertex::corner(far.0, far.1, window, image),
    {
        let (x, y) = (r.position_x, r.position_y);
        let (i_x, i_y) = (image.0, image.1);
        [
            Vertex { position: [x, y], window_dimensions: window, image_dimensions: [i_x, i_y] },
            Vertex {
                position: [x, far.1],
                window_dimensions: window,
                image_dimensions: [i_x, i_y],
            },
            Vertex {
                position: [far.0, y],
                window_dimensions: window,
                image_dimensions: [i_x, i_y],
            },
            Vertex {
                position: [far.0, far.1],
                window_dimensions: window,
                image_dimensions: [i_x, i_y],
            },
        ]
    }
}

/// What depends on the swapchain's extent: the viewport state, and one
/// framebuffer for each of the `images` swapchain images, in their order.
pub fn recreate_dimensions_dependent(dimensions: [u32; 2], images: usize) -> (out: (
    DynamicState,
    Vec<usize>,
))
    ensures
        out.0 == dynamic_state_for(dimensions),
        out.1@ == framebuffers_for(images as nat),
{
    let viewport = Viewport { origin: [0, 0], dimensions };
    let dynamic_state = DynamicState { viewport };
    let mut framebuffers: Vec<usize> = Vec::new();
    let mut image: usize = 0;
    while image < images
        invariant
            image <= images,
            framebuffers@ == framebuffers_for(image as nat),
        decreases images - image,
    {
        framebuffers.push(image);
        image += 1;
    }
    (dynamic_state, framebuffers)
}

impl VkSession {
    /// Takes over what was rebuilt for a swapchain of the extent `dimensions`
    /// with `images` images. The session that results depends on these two
    /// alone.
    pub fn update_swapchain(&mut self, dimensions: [u32; 2], images: usize)
        ensures
            final(self)@ == old(self)@.recreated(dimensions, images as nat),
    {
        let (dynamic_state, framebuffers) = recreate_dimensions_dependent(dimensions, images);
        self.dimensions = dimensions;
        self.sc_images = images;
        self.framebuffers = framebuffers;
        self.dynamic_state = dynamic_state;
    }
}

} // verus!
