use zircon::entity::{Entity, Rect, Texture};
use zircon::render::ingestion::{
    IngestionWorker, UploadJob, WorkerAction, WorkerEvent, INGESTION_WORKERS,
};
use zircon::render::presentation::{
    Action, Event, FrameEnd, FrameOutcome, Phase, PresentationLoop, Step,
    READINESS_BACKOFF_MILLIS,
};
use zircon::render::vk::{
    gather_dependencies, publish, sync_rectangles, Dependency, DrawRecord, Vertex,
};
use zircon::render::vkinit::{init, VkSession};

struct Still;

impl Entity for Still {
    fn init(&mut self) {}

    fn update(&mut self, _rect: &mut Rect) {}
}

fn rect(w: f32, h: f32, x: f32, y: f32) -> Rect {
    Rect::new(w.to_bits(), h.to_bits(), x.to_bits(), y.to_bits())
}

fn same_bits(a: &Rect, b: &Rect) -> bool {
    a.width == b.width
        && a.height == b.height
        && a.position_x == b.position_x
        && a.position_y == b.position_y
}

fn sprite(r: Rect, dimensions: (u32, u32)) -> Texture {
    let bytes = vec![0u8; (dimensions.0 * dimensions.1 * 4) as usize];
    Texture::new(r, Box::new(Still), bytes, dimensions)
}

fn record(texture: u64, r: Rect, dimensions: (u32, u32)) -> DrawRecord<u64> {
    DrawRecord { texture, rect: r, dimensions }
}

fn session() -> VkSession {
    init([2, 2], 2)
}

fn accepted(result: Result<Step<u64>, zircon::render::presentation::Rejected<u64>>) -> Step<u64> {
    match result {
        Ok(step) => step,
        Err(rejected) => panic!("rejected {:?}", rejected),
    }
}

fn to_acquiring(sprites: usize) -> PresentationLoop<u64> {
    let vk = session();
    let start = PresentationLoop::<u64>::start();
    let counted = accepted(start.state.step(Event::Counted { sprites, draws: sprites }, &vk));
    assert_eq!(counted.action, Action::Sync);
    let synced = accepted(counted.state.step(Event::Synced, &vk));
    assert_eq!(synced.action, Action::Acquire);
    assert_eq!(synced.state.phase, Phase::Acquiring);
    synced.state
}

#[test]
fn the_loop_starts_by_counting() {
    let start = PresentationLoop::<u64>::start();
    assert_eq!(start.state.phase, Phase::AwaitingReadiness);
    assert_eq!(start.state.previous_frame_end, FrameEnd::Now);
    assert_eq!(start.action, Action::Count { backoff_millis: 0 });
    assert_eq!(start.finished, None);
}

#[test]
fn the_loop_waits_while_uploads_are_outstanding() {
    let vk = session();
    let start = PresentationLoop::<u64>::start();
    let step = accepted(start.state.step(Event::Counted { sprites: 2, draws: 1 }, &vk));
    assert_eq!(step.state.phase, Phase::AwaitingReadiness);
    assert_eq!(step.action, Action::Count { backoff_millis: 10 });
    assert_eq!(READINESS_BACKOFF_MILLIS, 10);
    assert_eq!(step.finished, None);
    let again = accepted(step.state.step(Event::Counted { sprites: 2, draws: 3 }, &vk));
    assert_eq!(again.state.phase, Phase::AwaitingReadiness);
    assert_eq!(again.action, Action::Count { backoff_millis: 10 });
    let ready = accepted(again.state.step(Event::Counted { sprites: 2, draws: 2 }, &vk));
    assert_eq!(ready.state.phase, Phase::Syncing);
    assert_eq!(ready.action, Action::Sync);
}

#[test]
fn a_cycle_without_sprites_presents_an_empty_frame() {
    let vk = session();
    let sprites: Vec<Texture> = Vec::new();
    let mut draws: Vec<DrawRecord<u64>> = Vec::new();
    let mut waits: Vec<u64> = Vec::new();

    let start = PresentationLoop::<u64>::start();
    let counted = accepted(
        start.state.step(Event::Counted { sprites: sprites.len(), draws: draws.len() }, &vk),
    );
    assert_eq!(counted.action, Action::Sync);
    sync_rectangles(&sprites, &mut draws);
    assert!(draws.is_empty());
    let synced = accepted(counted.state.step(Event::Synced, &vk));
    assert_eq!(synced.action, Action::Acquire);
    let acquired = accepted(synced.state.step(Event::Acquired { image: 1 }, &vk));
    assert_eq!(acquired.state.phase, Phase::Submitting);
    assert_eq!(acquired.action, Action::Submit { image: 1, previous_frame_end: FrameEnd::Now });
    let dependencies = gather_dependencies(FrameEnd::<u64>::Now, 'i', &mut waits);
    assert_eq!(
        dependencies,
        vec![Dependency::PreviousFrame(FrameEnd::Now), Dependency::ImageReady('i')]
    );
    let submitted = accepted(acquired.state.step(Event::Submitted { frame_end: 77 }, &vk));
    assert_eq!(submitted.state.phase, Phase::AwaitingReadiness);
    assert_eq!(submitted.state.previous_frame_end, FrameEnd::Frame(77));
    assert_eq!(submitted.action, Action::Count { backoff_millis: 0 });
    assert_eq!(submitted.finished, Some(FrameOutcome::Presented));
}

#[test]
fn a_failed_acquisition_recreates_and_the_next_cycle_submits() {
    let vk = session();
    let r = rect(0.5, 0.5, 0.0, 0.0);
    let sprites = vec![sprite(r, (2, 2))];
    let mut draws = vec![record(40, r, (2, 2))];

    let start = PresentationLoop::<u64>::start();
    let first = accepted(
        start.state.step(Event::Counted { sprites: sprites.len(), draws: draws.len() }, &vk),
    );
    assert_eq!(first.action, Action::Sync);
    sync_rectangles(&sprites, &mut draws);
    let synced = accepted(first.state.step(Event::Synced, &vk));
    let failed = accepted(synced.state.step(Event::AcquireFailed, &vk));
    assert_eq!(failed.state.phase, Phase::Recreating);
    assert_eq!(failed.action, Action::Recreate);
    assert_eq!(failed.finished, None);
    let recreated = accepted(failed.state.step(Event::Recreated, &vk));
    assert_eq!(recreated.state.phase, Phase::AwaitingReadiness);
    assert_eq!(recreated.state.previous_frame_end, FrameEnd::Now);
    assert_eq!(recreated.action, Action::Count { backoff_millis: 0 });
    assert_eq!(recreated.finished, None);

    assert_eq!(draws.len(), 1);
    assert_eq!(draws[0].texture, 40);
    assert_eq!(draws[0].dimensions, (2, 2));
    assert!(same_bits(&draws[0].rect, &r));

    let counted = accepted(
        recreated.state.step(Event::Counted { sprites: sprites.len(), draws: draws.len() }, &vk),
    );
    sync_rectangles(&sprites, &mut draws);
    let synced = accepted(counted.state.step(Event::Synced, &vk));
    let acquired = accepted(synced.state.step(Event::Acquired { image: 0 }, &vk));
    assert_eq!(acquired.state.phase, Phase::Submitting);
    assert_eq!(acquired.action, Action::Submit { image: 0, previous_frame_end: FrameEnd::Now });
    assert_eq!(draws.len(), 1);
    assert_eq!(draws[0].texture, 40);
    assert_eq!(draws[0].dimensions, (2, 2));
    assert!(same_bits(&draws[0].rect, &r));
}

#[test]
fn a_failed_acquisition_keeps_what_the_next_frame_waits_for() {
    let vk = session();
    let acquiring = to_acquiring(0);
    let acquired = accepted(acquiring.step(Event::Acquired { image: 0 }, &vk));
    let submitted = accepted(acquired.state.step(Event::Submitted { frame_end: 9 }, &vk));
    let counted = accepted(submitted.state.step(Event::Counted { sprites: 0, draws: 0 }, &vk));
    let synced = accepted(counted.state.step(Event::Synced, &vk));
    let failed = accepted(synced.state.step(Event::AcquireFailed, &vk));
    assert_eq!(failed.state.previous_frame_end, FrameEnd::Frame(9));
    let recreated = accepted(failed.state.step(Event::Recreated, &vk));
    assert_eq!(recreated.state.previous_frame_end, FrameEnd::Frame(9));
    let counted = accepted(recreated.state.step(Event::Counted { sprites: 0, draws: 0 }, &vk));
    let synced = accepted(counted.state.step(Event::Synced, &vk));
    let acquired = accepted(synced.state.step(Event::Acquired { image: 1 }, &vk));
    assert_eq!(
        acquired.action,
        Action::Submit { image: 1, previous_frame_end: FrameEnd::Frame(9) }
    );
    assert_eq!(acquired.state.previous_frame_end, FrameEnd::Now);
}

#[test]
fn a_failed_submission_skips_the_frame_and_recreates() {
    let vk = session();
    let acquiring = to_acquiring(3);
    let acquired = accepted(acquiring.step(Event::Acquired { image: 1 }, &vk));
    let failed = accepted(acquired.state.step(Event::SubmitFailed, &vk));
    assert_eq!(failed.state.phase, Phase::Recreating);
    assert_eq!(failed.state.previous_frame_end, FrameEnd::Now);
    assert_eq!(failed.action, Action::Recreate);
    assert_eq!(failed.finished, Some(FrameOutcome::Skipped));
}

#[test]
fn an_image_without_a_framebuffer_recreates() {
    let vk = session();
    let acquiring = to_acquiring(1);
    let step = accepted(acquiring.step(Event::Acquired { image: 2 }, &vk));
    assert_eq!(step.state.phase, Phase::Recreating);
    assert_eq!(step.action, Action::Recreate);
    assert_eq!(step.finished, None);
}

#[test]
fn an_unexpected_event_is_handed_back() {
    let vk = session();
    let start = PresentationLoop::<u64>::start();
    let rejected = match start.state.step(Event::Submitted { frame_end: 3 }, &vk) {
        Ok(step) => panic!("accepted {:?}", step),
        Err(rejected) => rejected,
    };
    assert_eq!(rejected.state.phase, Phase::AwaitingReadiness);
    assert_eq!(rejected.state.previous_frame_end, FrameEnd::Now);
    assert_eq!(rejected.event, Event::Submitted { frame_end: 3 });

    let acquiring = to_acquiring(0);
    for event in [
        Event::Counted { sprites: 0, draws: 0 },
        Event::Synced,
        Event::Submitted { frame_end: 1 },
        Event::SubmitFailed,
        Event::Recreated,
    ] {
        let state = PresentationLoop { phase: Phase::Acquiring, previous_frame_end: FrameEnd::Now };
        assert!(state.step(event, &vk).is_err());
    }
    assert!(acquiring.step(Event::AcquireFailed, &vk).is_ok());
}

#[test]
fn every_phase_takes_its_own_events_only() {
    let vk = session();
    let phases = [
        Phase::AwaitingReadiness,
        Phase::Syncing,
        Phase::Acquiring,
        Phase::Submitting,
        Phase::Recreating,
    ];
    let expected = [
        [true, false, false, false, false, false, false],
        [false, true, false, false, false, false, false],
        [false, false, true, true, false, false, false],
        [false, false, false, false, true, true, false],
        [false, false, false, false, false, false, true],
    ];
    for (phase, row) in phases.iter().zip(expected.iter()) {
        let events = [
            Event::Counted { sprites: 1, draws: 1 },
            Event::Synced,
            Event::Acquired { image: 0 },
            Event::AcquireFailed,
            Event::Submitted { frame_end: 1u64 },
            Event::SubmitFailed,
            Event::Recreated,
        ];
        for (event, taken) in events.into_iter().zip(row.iter()) {
            let state = PresentationLoop { phase: *phase, previous_frame_end: FrameEnd::Now };
            assert_eq!(state.step(event, &vk).is_ok(), *taken, "{:?}", phase);
        }
    }
}

#[test]
fn sync_refreshes_the_records_that_differ() {
    let old = rect(0.5, 0.5, 0.0, 0.0);
    let moved = rect(0.5, 0.5, 0.25, 0.0);
    let sprites = vec![sprite(moved, (2, 2)), sprite(old, (4, 4))];
    let mut draws = vec![record(7, old, (2, 2)), record(8, old, (4, 4))];
    sync_rectangles(&sprites, &mut draws);
    assert_eq!(draws.len(), 2);
    assert!(same_bits(&draws[0].rect, &moved));
    assert!(same_bits(&draws[1].rect, &old));
    assert_eq!((draws[0].texture, draws[0].dimensions), (7, (2, 2)));
    assert_eq!((draws[1].texture, draws[1].dimensions), (8, (4, 4)));
}

#[test]
fn sync_keeps_a_record_that_is_numerically_equal() {
    let positive = rect(0.5, 0.5, 0.0, 0.0);
    let negative = rect(0.5, 0.5, -0.0, 0.0);
    let sprites = vec![sprite(negative, (1, 1))];
    let mut draws = vec![record(1, positive, (1, 1))];
    sync_rectangles(&sprites, &mut draws);
    assert!(same_bits(&draws[0].rect, &positive));
}

#[test]
fn sync_copies_a_nan_rectangle_each_time() {
    let nan = rect(f32::NAN, 0.5, 0.0, 0.0);
    let sprites = vec![sprite(nan, (1, 1))];
    let mut draws = vec![record(1, rect(0.5, 0.5, 0.0, 0.0), (1, 1))];
    sync_rectangles(&sprites, &mut draws);
    assert!(same_bits(&draws[0].rect, &nan));
    sync_rectangles(&sprites, &mut draws);
    assert!(same_bits(&draws[0].rect, &nan));
}

#[test]
fn sync_follows_the_entity_update() {
    struct Slide;
    impl Entity for Slide {
        fn init(&mut self) {}

        fn update(&mut self, rect: &mut Rect) {
            rect.position_x = (f32::from_bits(rect.position_x) + 0.125).to_bits();
        }
    }
    let r = rect(0.5, 0.5, 0.0, 0.0);
    let mut game = zircon::Game::init();
    game.textures.push(Texture::new(r, Box::new(Slide), vec![0; 4], (1, 1)));
    let mut draws = vec![record(1, r, (1, 1))];
    for tick in 1..4 {
        game.update_entities();
        sync_rectangles(&game.textures, &mut draws);
        assert_eq!(f32::from_bits(draws[0].rect.position_x), 0.125 * tick as f32);
        assert!(same_bits(&draws[0].rect, &game.textures[0].rect));
    }
}

#[test]
fn sync_leaves_records_without_a_sprite() {
    let old = rect(0.5, 0.5, 0.0, 0.0);
    let moved = rect(1.0, 1.0, 1.0, 1.0);
    let sprites = vec![sprite(moved, (2, 2))];
    let mut draws = vec![record(7, old, (2, 2)), record(8, old, (4, 4))];
    sync_rectangles(&sprites, &mut draws);
    assert!(same_bits(&draws[0].rect, &moved));
    assert!(same_bits(&draws[1].rect, &old));
    let mut none: Vec<DrawRecord<u64>> = Vec::new();
    sync_rectangles(&sprites, &mut none);
    assert!(none.is_empty());
}

#[test]
fn the_wait_list_is_empty_after_a_frame_took_it() {
    let mut waits = vec![11u64, 12, 13];
    let dependencies = gather_dependencies(FrameEnd::Frame(5u64), "image", &mut waits);
    assert_eq!(waits.len(), 0);
    assert_eq!(
        dependencies,
        vec![
            Dependency::PreviousFrame(FrameEnd::Frame(5)),
            Dependency::ImageReady("image"),
            Dependency::Upload(11),
            Dependency::Upload(12),
            Dependency::Upload(13),
        ]
    );
}

#[test]
fn a_signal_that_arrives_after_the_drain_waits_for_the_next_frame() {
    let mut draws: Vec<DrawRecord<u64>> = Vec::new();
    let mut waits = vec![1u64];
    let first = gather_dependencies(FrameEnd::<u64>::Now, 0u8, &mut waits);
    assert_eq!(first.len(), 3);
    publish(&mut draws, &mut waits, record(9, rect(1.0, 1.0, 0.0, 0.0), (1, 1)), 2);
    assert_eq!(waits, vec![2]);
    let second = gather_dependencies(FrameEnd::Frame(100u64), 1u8, &mut waits);
    assert_eq!(
        second,
        vec![
            Dependency::PreviousFrame(FrameEnd::Frame(100)),
            Dependency::ImageReady(1),
            Dependency::Upload(2),
        ]
    );
    assert!(waits.is_empty());
    let third = gather_dependencies(FrameEnd::Frame(101u64), 0u8, &mut waits);
    assert_eq!(third.len(), 2);
}

#[test]
fn publish_appends_to_both_lists() {
    let mut draws = vec![record(1, rect(1.0, 1.0, 0.0, 0.0), (1, 1))];
    let mut waits = vec!['a'];
    publish(&mut draws, &mut waits, record(2, rect(0.5, 0.5, 0.0, 0.0), (2, 2)), 'b');
    assert_eq!(draws.len(), 2);
    assert_eq!(draws[0].texture, 1);
    assert_eq!(draws[1].texture, 2);
    assert_eq!(draws[1].dimensions, (2, 2));
    assert_eq!(waits, vec!['a', 'b']);
}

fn job(r: Rect, dimensions: (u32, u32), fill: u8) -> UploadJob {
    UploadJob {
        pixels: vec![fill; (dimensions.0 * dimensions.1 * 4) as usize],
        dimensions,
        rect: r,
    }
}

fn upload(worker: IngestionWorker, j: UploadJob, texture: u64, signal: u64) -> (DrawRecord<u64>, u64) {
    let (uploading, action) = match worker.step::<u64, u64>(WorkerEvent::Received(j)) {
        Ok(out) => out,
        Err(_) => panic!("the job was rejected"),
    };
    assert!(matches!(action, WorkerAction::Upload { .. }));
    match uploading.step(WorkerEvent::Uploaded { texture, signal }) {
        Ok((IngestionWorker::Idle, WorkerAction::Publish { record, signal })) => (record, signal),
        _ => panic!("the upload did not publish"),
    }
}

#[test]
fn there_are_four_workers() {
    assert_eq!(INGESTION_WORKERS, 4);
}

#[test]
fn a_worker_uploads_the_job_it_received() {
    let (worker, first) = IngestionWorker::start::<u64, u64>();
    assert!(matches!(worker, IngestionWorker::Idle));
    assert!(matches!(first, WorkerAction::Receive));
    let r = rect(0.5, 0.25, -1.0, 1.0);
    let step = worker.step::<u64, u64>(WorkerEvent::Received(job(r, (2, 1), 9)));
    match step {
        Ok((IngestionWorker::Uploading { rect, dimensions }, WorkerAction::Upload { pixels, dimensions: d })) => {
            assert!(same_bits(&rect, &r));
            assert_eq!(dimensions, (2, 1));
            assert_eq!(d, (2, 1));
            assert_eq!(pixels, vec![9; 8]);
        },
        _ => panic!("the worker did not start the upload"),
    }
}

#[test]
fn a_finished_upload_is_published_with_the_rectangle_of_its_job() {
    let r = rect(0.5, 0.25, -1.0, 1.0);
    let (record, signal) = upload(IngestionWorker::Idle, job(r, (2, 1), 0), 31, 32);
    assert_eq!(record.texture, 31);
    assert_eq!(record.dimensions, (2, 1));
    assert!(same_bits(&record.rect, &r));
    assert_eq!(signal, 32);
}

#[test]
fn a_failed_upload_ends_the_worker() {
    let uploading = IngestionWorker::Uploading { rect: rect(1.0, 1.0, 0.0, 0.0), dimensions: (1, 1) };
    match uploading.step::<u64, u64>(WorkerEvent::UploadFailed) {
        Ok((IngestionWorker::Stopped, WorkerAction::Stop)) => {},
        _ => panic!("the worker went on"),
    }
    let stopped = IngestionWorker::Stopped;
    assert!(stopped.step::<u64, u64>(WorkerEvent::QueueClosed).is_err());
    assert!(stopped.step::<u64, u64>(WorkerEvent::UploadFailed).is_err());
    assert!(stopped
        .step::<u64, u64>(WorkerEvent::Received(job(rect(1.0, 1.0, 0.0, 0.0), (1, 1), 0)))
        .is_err());
}

#[test]
fn a_closed_queue_ends_an_idle_worker() {
    match IngestionWorker::Idle.step::<u64, u64>(WorkerEvent::QueueClosed) {
        Ok((IngestionWorker::Stopped, WorkerAction::Stop)) => {},
        _ => panic!("the worker went on"),
    }
}

#[test]
fn a_worker_hands_back_what_it_does_not_expect() {
    match IngestionWorker::Idle.step::<u64, u64>(WorkerEvent::Uploaded { texture: 1, signal: 2 }) {
        Err(rejected) => {
            assert!(matches!(rejected.worker, IngestionWorker::Idle));
            assert!(matches!(rejected.event, WorkerEvent::Uploaded { texture: 1, signal: 2 }));
        },
        Ok(_) => panic!("an idle worker took an upload"),
    }
    let uploading = IngestionWorker::Uploading { rect: rect(1.0, 1.0, 0.0, 0.0), dimensions: (1, 1) };
    assert!(uploading.step::<u64, u64>(WorkerEvent::QueueClosed).is_err());
}

#[test]
fn uploads_that_complete_in_order_keep_the_correspondence() {
    let first = rect(0.5, 0.5, 0.0, 0.0);
    let second = rect(0.25, 0.25, 0.5, 0.5);
    let sprites = vec![sprite(first, (2, 2)), sprite(second, (8, 8))];
    let mut draws: Vec<DrawRecord<u64>> = Vec::new();
    let mut waits: Vec<u64> = Vec::new();
    let (r0, s0) = upload(IngestionWorker::Idle, job(first, (2, 2), 0), 100, 200);
    publish(&mut draws, &mut waits, r0, s0);
    let (r1, s1) = upload(IngestionWorker::Idle, job(second, (8, 8), 1), 101, 201);
    publish(&mut draws, &mut waits, r1, s1);
    sync_rectangles(&sprites, &mut draws);
    for i in 0..2 {
        assert_eq!(draws[i].dimensions, sprites[i].sprite.1);
        assert!(same_bits(&draws[i].rect, &sprites[i].rect));
        assert_eq!(draws[i].texture, 100 + i as u64);
    }
    assert_eq!(waits, vec![200, 201]);
}

#[test]
fn uploads_that_complete_out_of_order_break_the_correspondence() {
    let first = rect(0.5, 0.5, 0.0, 0.0);
    let second = rect(0.25, 0.25, 0.5, 0.5);
    let sprites = vec![sprite(first, (2, 2)), sprite(second, (8, 8))];
    let mut draws: Vec<DrawRecord<u64>> = Vec::new();
    let mut waits: Vec<u64> = Vec::new();

    let (r1, s1) = upload(IngestionWorker::Idle, job(second, (8, 8), 1), 101, 201);
    publish(&mut draws, &mut waits, r1, s1);
    let vk = session();
    let start = PresentationLoop::<u64>::start();
    let early = accepted(
        start.state.step(Event::Counted { sprites: sprites.len(), draws: draws.len() }, &vk),
    );
    assert_eq!(early.action, Action::Count { backoff_millis: 10 });
    let (r0, s0) = upload(IngestionWorker::Idle, job(first, (2, 2), 0), 100, 200);
    publish(&mut draws, &mut waits, r0, s0);
    let ready = accepted(
        early.state.step(Event::Counted { sprites: sprites.len(), draws: draws.len() }, &vk),
    );
    assert_eq!(ready.action, Action::Sync);

    assert_eq!(draws[0].texture, 101);
    assert_eq!(draws[0].dimensions, (8, 8));
    assert!(same_bits(&draws[0].rect, &second));

    sync_rectangles(&sprites, &mut draws);

    assert_eq!(draws[0].texture, 101);
    assert_eq!(draws[0].dimensions, (8, 8));
    assert_ne!(draws[0].dimensions, sprites[0].sprite.1);
    assert!(same_bits(&draws[0].rect, &first));
    assert_eq!(draws[1].texture, 100);
    assert_eq!(draws[1].dimensions, (2, 2));
    assert_ne!(draws[1].dimensions, sprites[1].sprite.1);
    assert!(same_bits(&draws[1].rect, &second));
    assert_eq!(waits, vec![201, 200]);
}

#[test]
fn a_registered_sprite_is_drawn_where_its_rectangle_says() {
    let mut game = zircon::Game::init();
    let r = rect(0.5, 0.5, 0.0, 0.0);
    let image = image::DynamicImage::new_rgba8(2, 2);
    assert_eq!(game.connect(Box::new(Still), r, "sprite.png", Ok(image)), Ok(()));

    let mut jobs = game.upload_jobs();
    assert_eq!(jobs.len(), 1);
    let mut draws: Vec<DrawRecord<u64>> = Vec::new();
    let mut waits: Vec<u64> = Vec::new();
    let (record, signal) = upload(IngestionWorker::Idle, jobs.remove(0), 1, 2);
    publish(&mut draws, &mut waits, record, signal);

    let vk = session();
    let start = PresentationLoop::<u64>::start();
    let counted = accepted(
        start.state.step(Event::Counted { sprites: game.textures.len(), draws: draws.len() }, &vk),
    );
    assert_eq!(counted.action, Action::Sync);
    sync_rectangles(&game.textures, &mut draws);

    let shown = &draws[0];
    assert_eq!(shown.dimensions, (2, 2));
    let x = f32::from_bits(shown.rect.position_x);
    let y = f32::from_bits(shown.rect.position_y);
    let w = f32::from_bits(shown.rect.width);
    let h = f32::from_bits(shown.rect.height);
    let far = ((x + (w * 2.0 / 1.0)).to_bits(), (y + (h * 2.0 / 1.0)).to_bits());
    let window = [shown.dimensions.0, shown.dimensions.1];
    assert_eq!(vk.dimensions, window);
    let quad = Vertex::from(shown.rect, far, vk.dimensions, shown.dimensions);
    assert_eq!(
        (f32::from_bits(quad[0].position[0]), f32::from_bits(quad[0].position[1])),
        (0.0, 0.0)
    );
    assert_eq!(
        (f32::from_bits(quad[3].position[0]), f32::from_bits(quad[3].position[1])),
        (1.0, 1.0)
    );
    assert_eq!(quad[0].window_dimensions, [2, 2]);
    assert_eq!(quad[0].image_dimensions, [2, 2]);
}
