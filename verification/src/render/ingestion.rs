//! A texture ingestion worker as a state machine.
//!
//! A worker takes one upload job at a time from the queue, has the device
//! upload its pixels, and publishes the resulting draw record and completion
//! signal. The waiting and the upload are the worker thread's; what follows
//! from their outcomes is decided here.
//!
//! `T` is the type of a texture handle, `S` that of a completion signal.

use vstd::prelude::*;

use crate::entity::Rect;
use crate::render::vk::DrawRecord;

verus! {

/// How many workers drain the upload queue.
pub const INGESTION_WORKERS: usize = 4;

/// The pixels of one sprite on their way to the device, with the image's
/// width and height and the sprite's rectangle at the time the job was made.
#[derive(Debug)]
pub struct UploadJob {
    pub pixels: Vec<u8>,
    pub dimensions: (u32, u32),
    pub rect: Rect,
}

/// What a worker is doing.
#[derive(Debug, Clone, Copy)]
pub enum IngestionWorker {
    /// Waiting for a job.
    Idle,
    /// The device is uploading the pixels of a job with this rectangle and
    /// these dimensions.
    Uploading { rect: Rect, dimensions: (u32, u32) },
    /// The worker has ended: an upload failed, or the queue was closed.
    Stopped,
}

/// The outcome of a worker's action.
#[derive(Debug)]
pub enum WorkerEvent<T, S> {
    /// A job came out of the queue.
    Received(UploadJob),
    /// The queue was closed: no job will come.
    QueueClosed,
    /// The device took the pixels; `signal` completes when they are resident.
    Uploaded { texture: T, signal: S },
    /// The device refused the upload.
    UploadFailed,
}

/// What the worker thread does next.
#[derive(Debug)]
pub enum WorkerAction<T, S> {
    /// Wait for a job.
    Receive,
    /// Upload these pixels as an image of these dimensions.
    Upload { pixels: Vec<u8>, dimensions: (u32, u32) },
    /// Append `record` to the draw list and `signal` to the wait list, then
    /// wait for a job.
    Publish { record: DrawRecord<T>, signal: S },
    /// End the thread.
    Stop,
}

/// An event that the worker did not expect, with the unchanged state.
#[derive(Debug)]
pub struct RejectedWork<T, S> {
    pub worker: IngestionWorker,
    pub event: WorkerEvent<T, S>,
}

/// The record that the upload of `job` gives, for the texture handle that
/// the device handed out: it carries the job's rectangle and dimensions.
pub open spec fn record_of<T>(job: UploadJob, texture: T) -> DrawRecord<T> {
    DrawRecord { texture, rect: job.rect, dimensions: job.dimensions }
}

impl IngestionWorker {
    /// Whether `event` is an outcome of what the worker is doing.
    pub open spec fn expects<T, S>(self, event: WorkerEvent<T, S>) -> bool {
        match self {
            IngestionWorker::Idle => event is Received || event is QueueClosed,
            IngestionWorker::Uploading { .. } => event is Uploaded || event is UploadFailed,
            IngestionWorker::Stopped => false,
        }
    }

    /// The transition relation, for an event that the worker expects. A job
    /// gives one upload, an upload gives one record that carries the job's
    /// rectangle and dimensions, and a failure ends the worker.
    pub open spec fn next<T, S>(self, event: WorkerEvent<T, S>) -> (
        IngestionWorker,
        WorkerAction<T, S>,
    ) {
        match event {
            WorkerEvent::Received(job) => (
                IngestionWorker::Uploading { rect: job.rect, dimensions: job.dimensions },
                WorkerAction::Upload { pixels: job.pixels, dimensions: job.dimensions },
            ),
            WorkerEvent::Uploaded { texture, signal } => (
                IngestionWorker::Idle,
                WorkerAction::Publish {
                    record: DrawRecord {
                        texture,
                        rect: self->rect,
                        dimensions: self->dimensions,
                    },
                    signal,
                },
            ),
            WorkerEvent::QueueClosed | WorkerEvent::UploadFailed => (
                IngestionWorker::Stopped,
                WorkerAction::Stop,
            ),
        }
    }

    /// A worker that waits for its first job, and its first action.
    pub fn start<T, S>() -> (out: (IngestionWorker, WorkerAction<T, S>))
        ensures
            out == (IngestionWorker::Idle, WorkerAction::<T, S>::Receive),
    {
        (IngestionWorker::Idle, WorkerAction::Receive)
    }

    /// Takes the outcome of the last action and decides the next one.
    ///
    /// An event that the worker expects is answered by `next`. Any other
    /// event is handed back with the unchanged state.
    pub fn step<T, S>(self, event: WorkerEvent<T, S>) -> (result: Result<
        (IngestionWorker, WorkerAction<T, S>),
        RejectedWork<T, S>,
    >)
        ensures
            self.expects(event) ==> result == Ok::<
                (IngestionWorker, WorkerAction<T, S>),
                RejectedWork<T, S>,
            >(self.next(event)),
            !self.expects(event) ==> result == Err::<
                (IngestionWorker, WorkerAction<T, S>),
                RejectedWork<T, S>,
            >(RejectedWork { worker: self, event }),
    {
        match (self, event) {
            (IngestionWorker::Idle, WorkerEvent::Received(job)) => {
                let UploadJob { pixels, dimensions, rect } = job;
                Ok(
                    (
                        IngestionWorker::Uploading { rect, dimensions },
                        WorkerAction::Upload { pixels, dimensions },
                    ),
                )
            },
            (IngestionWorker::Idle, WorkerEvent::QueueClosed) => Ok(
                (IngestionWorker::Stopped, WorkerAction::Stop),
            ),
            (
                IngestionWorker::Uploading { rect, dimensions },
                WorkerEvent::Uploaded { texture, signal },
            ) => Ok(
                (
                    IngestionWorker::Idle,
                    WorkerAction::Publish {
                        record: DrawRecord { texture, rect, dimensions },
                        signal,
                    },
                ),
            ),
            (IngestionWorker::Uploading { .. }, WorkerEvent::UploadFailed) => Ok(
                (IngestionWorker::Stopped, WorkerAction::Stop),
            ),
            (worker, event) => Err(RejectedWork { worker, event }),
        }
    }
}

/// A job is consumed once and gives one record: an idle worker that
/// receives a job uploads that job's pixels, and when the upload succeeds it
/// publishes the job's record with the upload's signal and is idle again.
pub proof fn lemma_one_job_gives_one_record<T, S>(job: UploadJob, texture: T, signal: S)
    ensures
        ({
            let idle = IngestionWorker::Idle;
            let received = WorkerEvent::<T, S>::Received(job);
            let (uploading, upload) = idle.next(received);
            let uploaded = WorkerEvent::Uploaded { texture, signal };
            let (after, publish) = uploading.next(uploaded);
            &&& idle.expects(received)
            &&& upload == WorkerAction::<T, S>::Upload {
                pixels: job.pixels,
                dimensions: job.dimensions,
            }
            &&& uploading.expects(uploaded)
            &&& after == IngestionWorker::Idle
            &&& publish == WorkerAction::Publish { record: record_of(job, texture), signal }
        }),
{
}

/// An upload failure is fatal to the worker: it publishes nothing, stops,
/// and takes no further event.
pub proof fn lemma_failed_upload_stops_the_worker<T, S>(
    rect: Rect,
    dimensions: (u32, u32),
    later: WorkerEvent<T, S>,
)
    ensures
        ({
            let uploading = IngestionWorker::Uploading { rect, dimensions };
            let failed = WorkerEvent::<T, S>::UploadFailed;
            &&& uploading.expects(failed)
            &&& uploading.next(failed) == (IngestionWorker::Stopped, WorkerAction::<T, S>::Stop)
            &&& !IngestionWorker::Stopped.expects(later)
        }),
{
}

} // verus!
