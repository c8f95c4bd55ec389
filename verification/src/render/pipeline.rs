//! How the parts of the pipeline fit together: from registered sprites to
//! upload jobs, from completed uploads to the draw list, and from the draw
//! list to the readiness gate.

use vstd::prelude::*;

use crate::entity::Texture;
use crate::render::presentation::{
    expects, next, Action, Event, Phase, PresentationLoop, READINESS_BACKOFF_MILLIS,
};
use crate::render::vk::{rectangles, synchronized, DrawRecord};
use crate::render::vkinit::VkSessionView;

verus! {

/// The draw list after some uploads completed. The upload that completed as
/// number `k` was that of sprite `order[k]`, and the device handed out
/// `textures[k]` for it. Each record carries the rectangle and the
/// dimensions of its own sprite.
pub open spec fn completed<T>(sprites: Seq<Texture>, order: Seq<int>, textures: Seq<T>) -> Seq<
    DrawRecord<T>,
> {
    Seq::new(
        order.len(),
        |k: int|
            DrawRecord {
                texture: textures[k],
                rect: sprites[order[k]].rect,
                dimensions: sprites[order[k]].sprite.1,
            },
    )
}

/// Whether the uploads completed in the order in which the sprites were
/// registered.
pub open spec fn in_registration_order(order: Seq<int>) -> bool {
    forall|k: int| 0 <= k < order.len() ==> order[k] == k
}

/// Whether record `i` of the draw list belongs to sprite `i`.
pub open spec fn corresponds<T>(sprites: Seq<Texture>, draws: Seq<DrawRecord<T>>, i: int) -> bool {
    draws[i].dimensions == sprites[i].sprite.1
}

/// One more completed upload is one more record at the end of the draw
/// list: what `publish` appends.
pub proof fn lemma_completion_appends_a_record<T>(
    sprites: Seq<Texture>,
    order: Seq<int>,
    textures: Seq<T>,
    sprite: int,
    texture: T,
)
    requires
        order.len() == textures.len(),
    ensures
        completed(sprites, order.push(sprite), textures.push(texture)) == completed(
            sprites,
            order,
            textures,
        ).push(
            DrawRecord {
                texture,
                rect: sprites[sprite].rect,
                dimensions: sprites[sprite].sprite.1,
            },
        ),
{
    assert(completed(sprites, order.push(sprite), textures.push(texture)) =~= completed(
        sprites,
        order,
        textures,
    ).push(
        DrawRecord { texture, rect: sprites[sprite].rect, dimensions: sprites[sprite].sprite.1 },
    ));
}

/// The readiness gate is correct for every number of sprites, none
/// included. While uploads are outstanding the loop waits: it stays as it
/// is and counts again after the backoff. Once every upload completed, in
/// whatever order, the loop goes on and stays ready through the synchronization
/// pass, and the first cycle in which the device hands out an image reaches
/// submission.
pub proof fn lemma_gate_opens_once_every_upload_completed<T, F>(
    sprites: Seq<Texture>,
    order: Seq<int>,
    textures: Seq<T>,
    state: PresentationLoop<F>,
    session: VkSessionView,
    image: usize,
)
    requires
        sprites.len() <= usize::MAX,
        order.len() <= sprites.len(),
        state.phase == Phase::AwaitingReadiness,
        image < session.framebuffers.len(),
    ensures
        ({
            let draws = completed(sprites, order, textures);
            let counted = Event::<F>::Counted {
                sprites: sprites.len() as usize,
                draws: draws.len() as usize,
            };
            let step = next(state, counted, session);
            let synced = next(step.state, Event::Synced, session);
            let acquired = next(synced.state, Event::Acquired { image }, session);
            &&& draws.len() == order.len()
            &&& expects(state.phase, counted)
            &&& order.len() < sprites.len() ==> {
                &&& step.state == state
                &&& step.action == Action::<F>::Count { backoff_millis: READINESS_BACKOFF_MILLIS }
            }
            &&& order.len() == sprites.len() ==> {
                &&& step.action == Action::<F>::Sync
                &&& synchronized(rectangles(sprites), draws).len() == sprites.len()
                &&& synced.action == Action::<F>::Acquire
                &&& acquired.state.phase == Phase::Submitting
                &&& acquired.action == Action::Submit {
                    image,
                    previous_frame_end: state.previous_frame_end,
                }
            }
        }),
{
}

/// Positional correspondence holds where uploads complete in registration
/// order: then record `i` is that of sprite `i`, before and after any
/// synchronization.
pub proof fn lemma_in_order_completion_keeps_correspondence<T>(
    sprites: Seq<Texture>,
    order: Seq<int>,
    textures: Seq<T>,
)
    requires
        order.len() <= sprites.len(),
        in_registration_order(order),
    ensures
        forall|i: int|
            0 <= i < order.len() ==> {
                &&& #[trigger] corresponds(sprites, completed(sprites, order, textures), i)
                &&& completed(sprites, order, textures)[i].rect == sprites[i].rect
            },
        forall|i: int|
            0 <= i < order.len() ==> #[trigger] corresponds(
                sprites,
                synchronized(rectangles(sprites), completed(sprites, order, textures)),
                i,
            ),
{
}

/// Positional correspondence rests on the order of completion alone, and
/// synchronization does not restore it: where the upload that completed as
/// number `i` was that of another sprite with other dimensions, record `i`
/// keeps that sprite's texture and dimensions, while synchronization makes
/// it show the rectangle of sprite `i`.
pub proof fn lemma_out_of_order_completion_breaks_correspondence<T>(
    sprites: Seq<Texture>,
    order: Seq<int>,
    textures: Seq<T>,
    i: int,
)
    requires
        0 <= i < order.len() <= sprites.len(),
        0 <= order[i] < sprites.len(),
        sprites[order[i]].sprite.1 != sprites[i].sprite.1,
    ensures
        ({
            let draws = completed(sprites, order, textures);
            let synced = synchronized(rectangles(sprites), draws);
            &&& !corresponds(sprites, draws, i)
            &&& !corresponds(sprites, synced, i)
            &&& synced[i].texture == textures[i]
            &&& synced[i].dimensions == sprites[order[i]].sprite.1
            &&& synced[i].rect.matches(sprites[i].rect)
        }),
{
}

} // verus!
