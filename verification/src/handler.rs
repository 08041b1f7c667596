//! The decisions of the S3 event handler, as a state machine: the caller performs
//! each action it returns (fetch, store, record, finish) and reports back how it went.

use vstd::prelude::*;
use vstd::string::*;
use crate::clock::Clock;
use crate::error::ImageResizeError;
use crate::keys::{destination_key, destination_key_of, url_decode, url_decode_error_text, url_decoded, utf8_error_text};
use crate::models::config::Config;
use crate::models::metadata::ImageMetadata;
use crate::services::image_processor::{processed, ImageProcessor, ProcessResult};

verus! {

/// The parts of an S3 notification record that the handler reads.
pub struct S3Record {
    pub bucket_name: Option<String>,
    /// The object key as the notification carries it: URL-encoded.
    pub object_key: Option<String>,
}

/// What the caller reports after performing an action.
pub enum HandlerEvent {
    /// The run begins.
    Started,
    /// The object asked for was fetched: its bytes and the size the store reported.
    ObjectFetched { data: Vec<u8>, size: u64 },
    /// The processed image was stored.
    ObjectStored,
    /// The metadata record was saved.
    MetadataSaved,
    /// The action failed.
    Failed(ImageResizeError),
}

/// What the handler asks the caller to do next.
pub enum HandlerAction {
    FetchObject { bucket: String, key: String },
    StoreObject { bucket: String, key: String, data: Vec<u8>, content_type: String },
    SaveMetadata { table: String, metadata: ImageMetadata },
    /// The run is over, with this result.
    Finish(Result<(), ImageResizeError>),
}

/// The figures kept about the image in progress between storing it and recording it.
pub struct ProcessSummary {
    pub original_size: u64,
    pub final_size: u64,
    pub original_width: u32,
    pub original_height: u32,
    pub final_width: u32,
    pub final_height: u32,
    pub was_resized: bool,
}

/// What the handler waits for.
pub enum Phase {
    /// The run has not begun.
    Ready,
    /// The object of the current record.
    Fetching,
    /// The store of its processed image.
    Storing,
    /// The save of its metadata.
    Saving,
    /// Nothing: the run is over.
    Finished,
}

enum Stage {
    Ready,
    Fetching { key: String },
    Storing { key: String, dest_key: String, summary: ProcessSummary },
    Saving,
    Finished,
}

/// The abstract state of a handler.
pub struct HandlerView {
    pub records: Seq<S3Record>,
    /// How many records have been begun.
    pub position: nat,
    pub phase: Phase,
    /// The decoded key of the record in progress.
    pub key: Seq<char>,
    /// Where its processed image is stored.
    pub dest_key: Seq<char>,
    pub summary: ProcessSummary,
    pub dest_bucket: Seq<char>,
    pub resized_prefix: Seq<char>,
    pub source_prefix: Seq<char>,
    pub table: Option<Seq<char>>,
    pub max_width: u32,
    pub max_height: u32,
    pub max_file_size: u64,
    /// The times read from the clock so far, oldest first.
    pub readings: Seq<Seq<char>>,
}

/// Handles the records of one S3 notification, one after the other.
pub struct EventHandler {
    config: Config,
    processor: ImageProcessor,
    records: Vec<S3Record>,
    position: usize,
    stage: Stage,
    clock: Clock,
}

pub open spec fn empty_summary() -> ProcessSummary {
    ProcessSummary {
        original_size: 0,
        final_size: 0,
        original_width: 0,
        original_height: 0,
        final_width: 0,
        final_height: 0,
        was_resized: false,
    }
}

impl View for EventHandler {
    type V = HandlerView;

    closed spec fn view(&self) -> HandlerView {
        HandlerView {
            records: self.records@,
            position: self.position as nat,
            phase: match self.stage {
                Stage::Ready => Phase::Ready,
                Stage::Fetching { .. } => Phase::Fetching,
                Stage::Storing { .. } => Phase::Storing,
                Stage::Saving => Phase::Saving,
                Stage::Finished => Phase::Finished,
            },
            key: match self.stage {
                Stage::Fetching { key } => key@,
                Stage::Storing { key, .. } => key@,
                _ => Seq::empty(),
            },
            dest_key: match self.stage {
                Stage::Storing { dest_key, .. } => dest_key@,
                _ => Seq::empty(),
            },
            summary: match self.stage {
                Stage::Storing { summary, .. } => summary,
                _ => empty_summary(),
            },
            dest_bucket: self.config.dest_bucket@,
            resized_prefix: self.config.resized_prefix@,
            source_prefix: self.config.source_prefix@,
            table: match self.config.dynamodb_table {
                Some(t) => Some(t@),
                None => None,
            },
            max_width: self.processor.box_width(),
            max_height: self.processor.box_height(),
            max_file_size: self.processor.size_limit(),
            readings: self.clock.readings(),
        }
    }
}

/// The events a handler in state `v` can be told of.
pub open spec fn accepts(v: HandlerView, event: HandlerEvent) -> bool {
    match v.phase {
        Phase::Ready => event is Started,
        Phase::Fetching => event is ObjectFetched || event is Failed,
        Phase::Storing => event is ObjectStored || event is Failed,
        Phase::Saving => event is MetadataSaved || event is Failed,
        Phase::Finished => false,
    }
}

/// A step keeps the records and the settings.
pub open spec fn same_setup(v: HandlerView, w: HandlerView) -> bool {
    &&& w.records == v.records
    &&& w.dest_bucket == v.dest_bucket
    &&& w.resized_prefix == v.resized_prefix
    &&& w.source_prefix == v.source_prefix
    &&& w.table == v.table
    &&& w.max_width == v.max_width
    &&& w.max_height == v.max_height
    &&& w.max_file_size == v.max_file_size
}

/// The run ends with an `S3Error` whose message is `message`.
pub open spec fn finishes_with_s3_error(action: HandlerAction, message: Seq<char>) -> bool {
    action matches HandlerAction::Finish(Err(ImageResizeError::S3Error(m))) && m@ == message
}

/// The next record is begun: when none is left the run ends well; a record without
/// a bucket or a key, or whose key does not decode, ends the run with an `S3Error`;
/// otherwise its object is fetched under the decoded key.
pub open spec fn begins_next_record(v: HandlerView, w: HandlerView, action: HandlerAction) -> bool {
    let i = v.position;
    if i >= v.records.len() {
        w.phase == Phase::Finished && w.position == v.position && action matches HandlerAction::Finish(Ok(_))
    } else {
        let record = v.records[i as int];
        &&& w.position == i + 1
        &&& match record.bucket_name {
            None => w.phase == Phase::Finished && finishes_with_s3_error(action, "Missing bucket name"@),
            Some(b) => match record.object_key {
                None => w.phase == Phase::Finished && finishes_with_s3_error(action, "Missing object key"@),
                Some(raw) => match url_decoded(raw@) {
                    None => {
                        &&& w.phase == Phase::Finished
                        &&& action matches HandlerAction::Finish(Err(ImageResizeError::S3Error(m)))
                        &&& m@ == "Failed to decode key: "@ + url_decode_error_text(raw@)
                    },
                    Some(k) => {
                        &&& w.phase == Phase::Fetching
                        &&& w.key == k
                        &&& action matches HandlerAction::FetchObject { bucket, key }
                        &&& bucket@ == b@
                        &&& key@ == k
                    },
                },
            },
        }
    }
}

/// What follows the processing of the fetched image, of `size` bytes as reported,
/// into `res`: a failure ends the run; a result is stored in the destination bucket,
/// as JPEG, under the destination key of the current record.
pub open spec fn stores_processed(v: HandlerView, size: u64, res: Result<ProcessResult, ImageResizeError>, w: HandlerView, action: HandlerAction) -> bool {
    match res {
        Err(e) => w.phase == Phase::Finished && w.position == v.position && action == HandlerAction::Finish(Err(e)),
        Ok(r) => {
            &&& w.phase == Phase::Storing
            &&& w.position == v.position
            &&& w.key == v.key
            &&& w.dest_key == destination_key_of(v.key, v.source_prefix, v.resized_prefix)
            &&& w.summary == ProcessSummary {
                original_size: size,
                final_size: r.data@.len() as u64,
                original_width: r.original_width,
                original_height: r.original_height,
                final_width: r.width,
                final_height: r.height,
                was_resized: r.was_resized,
            }
            &&& action matches HandlerAction::StoreObject { bucket, key, data, content_type }
            &&& bucket@ == v.dest_bucket
            &&& key@ == w.dest_key
            &&& data@ == r.data@
            &&& content_type@ == "image/jpeg"@
        },
    }
}

/// The metadata recorded for the image in progress (its timestamp aside).
pub open spec fn describes_current(v: HandlerView, m: ImageMetadata) -> bool {
    &&& m.object_key@ == v.key
    &&& m.resized_key@ == v.dest_key
    &&& m.original_size == v.summary.original_size
    &&& m.final_size == v.summary.final_size
    &&& m.original_width == v.summary.original_width
    &&& m.original_height == v.summary.original_height
    &&& m.final_width == v.summary.final_width
    &&& m.final_height == v.summary.final_height
    &&& m.was_resized == v.summary.was_resized
}

/// One step of the handler in state `v`, told of `event`, to state `w` and `action`.
/// Only the step that records a stored image reads the clock, and the timestamp it
/// records is that reading.
pub open spec fn handler_step(v: HandlerView, event: HandlerEvent, w: HandlerView, action: HandlerAction) -> bool {
    &&& same_setup(v, w)
    &&& match event {
        HandlerEvent::Started => begins_next_record(v, w, action) && w.readings == v.readings,
        HandlerEvent::Failed(e) => w.phase == Phase::Finished && w.position == v.position
            && action == HandlerAction::Finish(Err(e)) && w.readings == v.readings,
        HandlerEvent::ObjectFetched { data, size } => w.readings == v.readings
            && exists|res: Result<ProcessResult, ImageResizeError>|
            #[trigger] processed(v.max_width, v.max_height, v.max_file_size, data@, size, res)
                && stores_processed(v, size, res, w, action),
        HandlerEvent::ObjectStored => match v.table {
            Some(t) => {
                &&& w.phase == Phase::Saving
                &&& w.position == v.position
                &&& action matches HandlerAction::SaveMetadata { table, metadata }
                &&& table@ == t
                &&& describes_current(v, metadata)
                &&& metadata.timestamp@.len() > 0
                &&& w.readings == v.readings.push(metadata.timestamp@)
            },
            None => begins_next_record(v, w, action) && w.readings == v.readings,
        },
        HandlerEvent::MetadataSaved => begins_next_record(v, w, action) && w.readings == v.readings,
    }
}

impl EventHandler {
    /// A handler for `records`, under `config`.
    pub fn new(config: Config, records: Vec<S3Record>) -> (res: Self)
        ensures
            res@.records == records@,
            res@.position == 0,
            res@.phase == Phase::Ready,
            res@.dest_bucket == config.dest_bucket@,
            res@.resized_prefix == config.resized_prefix@,
            res@.source_prefix == config.source_prefix@,
            res@.table == (match config.dynamodb_table {
                Some(t) => Some(t@),
                None => None,
            }),
            res@.max_width == config.max_width,
            res@.max_height == config.max_height,
            res@.max_file_size == config.max_file_size,
            res@.readings == Seq::<Seq<char>>::empty(),
    {
        let processor = ImageProcessor::new(config.max_width, config.max_height, config.max_file_size);
        EventHandler { config, processor, records, position: 0, stage: Stage::Ready, clock: Clock::new() }
    }

    fn finish(&mut self, result: Result<(), ImageResizeError>) -> (action: HandlerAction)
        ensures
            same_setup(old(self)@, final(self)@),
            final(self)@.position == old(self)@.position,
            final(self)@.phase == Phase::Finished,
            final(self)@.readings == old(self)@.readings,
            action == HandlerAction::Finish(result),
    {
        self.stage = Stage::Finished;
        HandlerAction::Finish(result)
    }

    fn begin_next_record(&mut self) -> (action: HandlerAction)
        ensures
            same_setup(old(self)@, final(self)@),
            begins_next_record(old(self)@, final(self)@, action),
            final(self)@.readings == old(self)@.readings,
    {
        let i = self.position;
        if i >= self.records.len() {
            return self.finish(Ok(()));
        }
        self.position = i + 1;
        let bucket = match &self.records[i].bucket_name {
            Some(b) => b.clone(),
            None => return self.finish(Err(ImageResizeError::S3Error(String::from_str("Missing bucket name")))),
        };
        let raw = match &self.records[i].object_key {
            Some(k) => k.clone(),
            None => return self.finish(Err(ImageResizeError::S3Error(String::from_str("Missing object key")))),
        };
        let key = match url_decode(raw.as_str()) {
            Ok(k) => k,
            Err(err) => {
                let mut message = String::from_str("Failed to decode key: ");
                let text = utf8_error_text(&err);
                message.append(text.as_str());
                return self.finish(Err(ImageResizeError::S3Error(message)));
            },
        };
        self.stage = Stage::Fetching { key: key.clone() };
        HandlerAction::FetchObject { bucket, key }
    }

    fn store_processed(&mut self, size: u64, res: Result<ProcessResult, ImageResizeError>) -> (action: HandlerAction)
        requires
            old(self)@.phase == Phase::Fetching,
        ensures
            same_setup(old(self)@, final(self)@),
            stores_processed(old(self)@, size, res, final(self)@, action),
            final(self)@.readings == old(self)@.readings,
    {
        let result = match res {
            Ok(r) => r,
            Err(e) => return self.finish(Err(e)),
        };
        let key = match &self.stage {
            Stage::Fetching { key } => key.clone(),
            _ => String::new(),
        };
        let dest_key = destination_key(key.as_str(), self.config.source_prefix.as_str(), self.config.resized_prefix.as_str());
        let summary = ProcessSummary {
            original_size: size,
            final_size: result.data.len() as u64,
            original_width: result.original_width,
            original_height: result.original_height,
            final_width: result.width,
            final_height: result.height,
            was_resized: result.was_resized,
        };
        let bucket = self.config.dest_bucket.clone();
        let store_key = dest_key.clone();
        self.stage = Stage::Storing { key, dest_key, summary };
        HandlerAction::StoreObject { bucket, key: store_key, data: result.data, content_type: String::from_str("image/jpeg") }
    }

    fn save_or_continue(&mut self) -> (action: HandlerAction)
        requires
            old(self)@.phase == Phase::Storing,
        ensures
            same_setup(old(self)@, final(self)@),
            match old(self)@.table {
                Some(t) => {
                    &&& final(self)@.phase == Phase::Saving
                    &&& final(self)@.position == old(self)@.position
                    &&& action matches HandlerAction::SaveMetadata { table, metadata }
                    &&& table@ == t
                    &&& describes_current(old(self)@, metadata)
                    &&& metadata.timestamp@.len() > 0
                    &&& final(self)@.readings == old(self)@.readings.push(metadata.timestamp@)
                },
                None => begins_next_record(old(self)@, final(self)@, action)
                    && final(self)@.readings == old(self)@.readings,
            },
    {
        let table = match &self.config.dynamodb_table {
            Some(t) => t.clone(),
            None => return self.begin_next_record(),
        };
        let stamp = self.clock.now();
        let metadata = self.metadata_at(stamp);
        self.stage = Stage::Saving;
        HandlerAction::SaveMetadata { table, metadata }
    }

    /// The metadata of the image whose store is awaited, stamped with `timestamp`.
    pub fn metadata_at(&self, timestamp: String) -> (m: ImageMetadata)
        requires
            self@.phase == Phase::Storing,
        ensures
            describes_current(self@, m),
            m.timestamp == timestamp,
    {
        match &self.stage {
            Stage::Storing { key, dest_key, summary } => ImageMetadata {
                object_key: key.clone(),
                resized_key: dest_key.clone(),
                original_size: summary.original_size,
                final_size: summary.final_size,
                original_width: summary.original_width,
                original_height: summary.original_height,
                final_width: summary.final_width,
                final_height: summary.final_height,
                was_resized: summary.was_resized,
                timestamp,
            },
            _ => {
                proof {
                    assert(false);
                }
                ImageMetadata {
                    object_key: String::new(),
                    resized_key: String::new(),
                    original_size: 0,
                    final_size: 0,
                    original_width: 0,
                    original_height: 0,
                    final_width: 0,
                    final_height: 0,
                    was_resized: false,
                    timestamp,
                }
            },
        }
    }

    /// Takes one step: told of `event`, the handler moves on and says what to do next.
    pub fn step(&mut self, event: HandlerEvent) -> (action: HandlerAction)
        requires
            accepts(old(self)@, event),
        ensures
            handler_step(old(self)@, event, final(self)@, action),
    {
        match event {
            HandlerEvent::Started => self.begin_next_record(),
            HandlerEvent::Failed(e) => self.finish(Err(e)),
            HandlerEvent::ObjectFetched { data, size } => {
                let res = self.processor.process_image(data, size);
                let ghost outcome = res;
                let action = self.store_processed(size, res);
                proof {
                    assert(processed(old(self)@.max_width, old(self)@.max_height, old(self)@.max_file_size, data@, size, outcome));
                }
                action
            },
            HandlerEvent::ObjectStored => self.save_or_continue(),
            HandlerEvent::MetadataSaved => self.begin_next_record(),
        }
    }

    /// Whether the handler, in its present state, can be told of `event`.
    pub fn can_take(&self, event: &HandlerEvent) -> (res: bool)
        ensures
            res == accepts(self@, *event),
    {
        match (&self.stage, event) {
            (Stage::Ready, HandlerEvent::Started) => true,
            (Stage::Fetching { .. }, HandlerEvent::ObjectFetched { .. }) => true,
            (Stage::Storing { .. }, HandlerEvent::ObjectStored) => true,
            (Stage::Saving, HandlerEvent::MetadataSaved) => true,
            (Stage::Fetching { .. }, HandlerEvent::Failed(_)) => true,
            (Stage::Storing { .. }, HandlerEvent::Failed(_)) => true,
            (Stage::Saving, HandlerEvent::Failed(_)) => true,
            _ => false,
        }
    }

    /// Whether the run is over.
    pub fn is_finished(&self) -> (res: bool)
        ensures
            res == (self@.phase == Phase::Finished),
    {
        match self.stage {
            Stage::Finished => true,
            _ => false,
        }
    }
}

/// A run ends exactly when the handler says `Finish`: after it no event is taken,
/// and after any other action some event is. Records are begun one at a time, in
/// order: a step moves on by at most one record.
pub proof fn lemma_finish_ends_run(v: HandlerView, event: HandlerEvent, w: HandlerView, action: HandlerAction)
    requires
        accepts(v, event),
        handler_step(v, event, w, action),
    ensures
        action is Finish <==> w.phase == Phase::Finished,
        action is Finish ==> forall|next: HandlerEvent| !accepts(w, next),
        !(action is Finish) ==> accepts(w, HandlerEvent::Failed(ImageResizeError::InvalidImage))
            || accepts(w, HandlerEvent::Started),
        v.position <= w.position <= v.position + 1,
{
    match event {
        HandlerEvent::ObjectFetched { data, size } => {
            let res = choose|res: Result<ProcessResult, ImageResizeError>|
                #[trigger] processed(v.max_width, v.max_height, v.max_file_size, data@, size, res)
                    && stores_processed(v, size, res, w, action);
            assert(stores_processed(v, size, res, w, action));
        },
        _ => {},
    }
}

/// Without a metadata table, a record ends with the store of its image, as it ends
/// with the save of its metadata where there is a table: the run then goes on with
/// the next record. When that record names its bucket and a key that decodes, its
/// object is fetched from that bucket under the decoded key, and the handler waits
/// for it.
pub proof fn lemma_record_done_moves_on(v: HandlerView, event: HandlerEvent, w: HandlerView, action: HandlerAction, bucket: String, raw_key: String, key: Seq<char>)
    requires
        handler_step(v, event, w, action),
        (event is ObjectStored && v.table is None) || event is MetadataSaved,
        v.position < v.records.len(),
        v.records[v.position as int].bucket_name == Some(bucket),
        v.records[v.position as int].object_key == Some(raw_key),
        url_decoded(raw_key@) == Some(key),
    ensures
        action matches HandlerAction::FetchObject { bucket: b, key: k } && b@ == bucket@ && k@ == key,
        w.position == v.position + 1,
        w.phase == Phase::Fetching,
        w.key == key,
{
}

/// A run ends well only once every record has been begun: while a record is left,
/// no step answers `Finish(Ok(()))`.
pub proof fn lemma_finishes_well_only_when_done(v: HandlerView, event: HandlerEvent, w: HandlerView, action: HandlerAction)
    requires
        handler_step(v, event, w, action),
        action matches HandlerAction::Finish(Ok(_)),
    ensures
        v.position >= v.records.len(),
        w.position == v.position,
{
    match event {
        HandlerEvent::ObjectFetched { data, size } => {
            let res = choose|res: Result<ProcessResult, ImageResizeError>|
                #[trigger] processed(v.max_width, v.max_height, v.max_file_size, data@, size, res)
                    && stores_processed(v, size, res, w, action);
            assert(stores_processed(v, size, res, w, action));
        },
        _ => {},
    }
}

/// What is recorded of an image is what was fetched and stored: after the fetched
/// object (of `size` bytes as reported) is processed and stored, the metadata saved
/// for it gives the length of the stored data as its final size, the reported size
/// as its original size, the key it was stored under as its resized key, and the
/// key it was fetched under as its object key.
pub proof fn lemma_recorded_sizes_are_stored_sizes(v0: HandlerView, data: Vec<u8>, size: u64, v1: HandlerView, stored: HandlerAction, v2: HandlerView, saved: HandlerAction)
    requires
        handler_step(v0, HandlerEvent::ObjectFetched { data, size }, v1, stored),
        stored is StoreObject,
        handler_step(v1, HandlerEvent::ObjectStored, v2, saved),
        saved is SaveMetadata,
    ensures
        stored matches HandlerAction::StoreObject { key: store_key, data: stored_data, .. }
            && saved matches HandlerAction::SaveMetadata { metadata, .. }
            && metadata.final_size == stored_data@.len()
            && metadata.original_size == size
            && metadata.resized_key@ == store_key@
            && metadata.object_key@ == v0.key,
{
    let res = choose|res: Result<ProcessResult, ImageResizeError>|
        #[trigger] processed(v0.max_width, v0.max_height, v0.max_file_size, data@, size, res)
            && stores_processed(v0, size, res, v1, stored);
    assert(stores_processed(v0, size, res, v1, stored));
    let r = res->Ok_0;
    assert(r.data.len() == r.data@.len());
}

/// The timestamp saved with a record's metadata is the time read from the clock at
/// that step: the log of readings grows by exactly that timestamp. No other step
/// reads the clock, so each saved record carries a reading of its own.
pub proof fn lemma_timestamp_is_clock_reading(v: HandlerView, event: HandlerEvent, w: HandlerView, action: HandlerAction)
    requires
        handler_step(v, event, w, action),
    ensures
        action matches HandlerAction::SaveMetadata { metadata, .. } ==> {
            &&& w.readings == v.readings.push(metadata.timestamp@)
            &&& w.readings.len() == v.readings.len() + 1
            &&& w.readings.last() == metadata.timestamp@
        },
        !(action is SaveMetadata) ==> w.readings == v.readings,
{
    match event {
        HandlerEvent::ObjectFetched { data, size } => {
            let res = choose|res: Result<ProcessResult, ImageResizeError>|
                #[trigger] processed(v.max_width, v.max_height, v.max_file_size, data@, size, res)
                    && stores_processed(v, size, res, w, action);
            assert(stores_processed(v, size, res, w, action));
        },
        _ => {},
    }
}

} // verus!
