//! The source: the producer that a pipeline pulls events from.
//!
//! A source does no I/O. Its driver opens the file, plain or through a gzip
//! decoder as [`GHarchiveSource::is_gzip`] says, and reports the outcome to
//! [`GHarchiveSource::init`]. For each pull it reads one line, up to and
//! with its terminator, and hands the bytes to [`GHarchiveSource::next`]; no
//! bytes at all mean the end of the stream.

use vstd::prelude::*;
use crate::decode::{decode_line, line_event};
use crate::error::{DecodeFailure, DecodeReason, IoFailure, SourceError, SourceErrorView};
use crate::event::EventView;
use crate::format::{is_gzip_path, names_gzip};

pub use crate::event::{Actor, Event, Org, Repo};

verus! {

/// Where a source stands in its life.
#[derive(Clone, Copy, Debug, PartialEq, Eq, Structural)]
pub enum Lifecycle {
    /// Made, and not opened yet.
    Uninitialized,
    /// Open: each pull reads a line.
    Ready,
    /// Closed, by the caller or by a failure. Pulls yield nothing.
    Closed,
}

/// A source of the events in one archive file.
#[derive(Debug)]
pub struct GHarchiveSource {
    path: String,
    is_gzip: bool,
    state: Lifecycle,
}

/// The mathematical value of a [`GHarchiveSource`].
pub struct SourceView {
    pub path: Seq<char>,
    pub is_gzip: bool,
    pub state: Lifecycle,
}

/// What the driver read for one pull: the bytes of a line, none at the end
/// of the stream, or the description of a failure.
pub type ReadView = Result<Seq<u8>, Seq<char>>;

/// What one pull yields: an event, nothing, or an error.
pub type YieldView = Result<Option<EventView>, SourceErrorView>;

/// The mathematical value of what the driver read.
pub open spec fn read_view(read: Result<Vec<u8>, IoFailure>) -> ReadView {
    match read {
        Ok(raw) => Ok(raw@),
        Err(failure) => Err(failure.detail@),
    }
}

/// The mathematical value of what a pull yielded.
pub open spec fn yield_view(out: Result<Option<Event>, SourceError>) -> YieldView {
    match out {
        Ok(Some(event)) => Ok(Some(event@)),
        Ok(None) => Ok(None),
        Err(error) => Err(error@),
    }
}

impl SourceView {
    /// The source after the driver tried to open the file: ready where it
    /// could, closed for good where it could not.
    pub open spec fn opened(self, success: bool) -> SourceView {
        SourceView {
            state: if success {
                Lifecycle::Ready
            } else {
                Lifecycle::Closed
            },
            ..self
        }
    }

    /// What a pull yields. A source that is not ready yields nothing,
    /// whatever was read. A ready one yields nothing at the end of the
    /// stream, the event of the line that was read, or the error that tells
    /// why there is none.
    pub open spec fn yielded(self, read: ReadView) -> YieldView {
        if self.state != Lifecycle::Ready {
            Ok(None)
        } else {
            match read {
                Err(detail) => Err(SourceErrorView::Io(detail)),
                Ok(raw) => if raw.len() == 0 {
                    Ok(None)
                } else {
                    match line_event(raw) {
                        Ok(event) => Ok(Some(event)),
                        Err(reason) => Err(SourceErrorView::Decode(raw, reason)),
                    }
                },
            }
        }
    }

    /// The source after a pull. Only a failed read changes it: the stream
    /// cannot be read on, so the source closes.
    pub open spec fn pulled(self, read: ReadView) -> SourceView {
        if self.state == Lifecycle::Ready && read is Err {
            SourceView { state: Lifecycle::Closed, ..self }
        } else {
            self
        }
    }

    /// The source after it was closed.
    pub open spec fn closed(self) -> SourceView {
        SourceView { state: Lifecycle::Closed, ..self }
    }

    /// The source after a run of pulls, one for each read in turn, and what
    /// the pulls yielded.
    pub open spec fn run(self, reads: Seq<ReadView>) -> (SourceView, Seq<YieldView>)
        decreases reads.len(),
    {
        if reads.len() == 0 {
            (self, Seq::empty())
        } else {
            let (before, yields) = self.run(reads.drop_last());
            (before.pulled(reads.last()), yields.push(before.yielded(reads.last())))
        }
    }
}

/// The reads of a driver that finds `lines` in the file and is then asked
/// `polls` more times: each line in turn, then the end of the stream.
pub open spec fn reads_of(lines: Seq<Seq<u8>>, polls: nat) -> Seq<ReadView> {
    Seq::new(
        lines.len() + polls,
        |i: int|
            if i < lines.len() {
                Ok(lines[i])
            } else {
                Ok(Seq::empty())
            },
    )
}

impl View for GHarchiveSource {
    type V = SourceView;

    closed spec fn view(&self) -> SourceView {
        SourceView { path: self.path@, is_gzip: self.is_gzip, state: self.state }
    }
}

impl GHarchiveSource {
    /// The format is resolved once, when the source is made, and never
    /// again.
    #[verifier::type_invariant]
    spec fn resolved(self) -> bool {
        self.is_gzip == names_gzip(self.path@)
    }

    /// Makes a source for the file at `path`. Nothing is opened yet.
    pub fn new(path: &str) -> (source: GHarchiveSource)
        ensures
            source@ == (SourceView {
                path: path@,
                is_gzip: names_gzip(path@),
                state: Lifecycle::Uninitialized,
            }),
    {
        GHarchiveSource {
            path: path.to_owned(),
            is_gzip: is_gzip_path(path),
            state: Lifecycle::Uninitialized,
        }
    }

    /// The path of the file.
    pub fn path(&self) -> (path: &str)
        ensures
            path@ == self@.path,
    {
        self.path.as_str()
    }

    /// Whether the file has to be read through a gzip decoder.
    pub fn is_gzip(&self) -> (gzip: bool)
        ensures
            gzip == self@.is_gzip,
            gzip == names_gzip(self@.path),
    {
        proof {
            use_type_invariant(self);
        }
        self.is_gzip
    }

    /// Where the source stands in its life.
    pub fn state(&self) -> (state: Lifecycle)
        ensures
            state == self@.state,
    {
        self.state
    }

    /// Whether the driver has to read a line for the next pull. Where it
    /// need not, [`GHarchiveSource::next`] yields nothing whatever it is
    /// handed.
    pub fn wants_read(&self) -> (wanted: bool)
        ensures
            wanted == (self@.state == Lifecycle::Ready),
    {
        self.state == Lifecycle::Ready
    }

    /// Takes note of the driver's attempt to open the file. On success the
    /// source is ready, read from the start of the file; on failure it is
    /// closed, and the failure is handed back.
    pub fn init(&mut self, opened: Result<(), IoFailure>) -> (out: Result<(), IoFailure>)
        ensures
            final(self)@ == old(self)@.opened(opened is Ok),
            match out {
                Ok(_) => opened is Ok,
                Err(failure) => opened is Err && failure.detail@ == opened->Err_0.detail@,
            },
    {
        proof {
            use_type_invariant(&*self);
        }
        match opened {
            Ok(_) => {
                self.state = Lifecycle::Ready;
                Ok(())
            },
            Err(failure) => {
                self.state = Lifecycle::Closed;
                Err(failure)
            },
        }
    }

    /// Pulls the next event, given what the driver read for it.
    ///
    /// The end of the stream yields `Ok(None)`, and so does every pull on a
    /// source that is not ready. A line that is no event yields a decode
    /// error that carries the line; the source stays ready. A failed read
    /// yields an I/O error and closes the source.
    pub fn next(&mut self, read: Result<Vec<u8>, IoFailure>) -> (out: Result<
        Option<Event>,
        SourceError,
    >)
        ensures
            final(self)@ == old(self)@.pulled(read_view(read)),
            yield_view(out) == old(self)@.yielded(read_view(read)),
            out matches Ok(Some(event)) ==> event@.well_formed(),
    {
        proof {
            use_type_invariant(&*self);
        }
        if self.state != Lifecycle::Ready {
            return Ok(None);
        }
        match read {
            Err(failure) => {
                self.state = Lifecycle::Closed;
                Err(SourceError::Io(failure))
            },
            Ok(raw) => {
                if raw.len() == 0 {
                    return Ok(None);
                }
                match decode_line(raw.as_slice()) {
                    Ok(event) => Ok(Some(event)),
                    Err(reason) => Err(SourceError::Decode(DecodeFailure { line: raw, reason })),
                }
            },
        }
    }

    /// Closes the source. Closing a source that is closed already changes
    /// nothing, and closing never fails.
    pub fn close(&mut self) -> (out: Result<(), IoFailure>)
        ensures
            out is Ok,
            final(self)@ == old(self)@.closed(),
    {
        proof {
            use_type_invariant(&*self);
        }
        self.state = Lifecycle::Closed;
        Ok(())
    }
}

/// While no read fails, a ready source stays ready, and each pull yields
/// what its own read holds.
pub proof fn lemma_run_without_failure(source: SourceView, reads: Seq<ReadView>)
    requires
        source.state == Lifecycle::Ready,
        forall|i: int| 0 <= i < reads.len() ==> (#[trigger] reads[i]) is Ok,
    ensures
        source.run(reads).0 == source,
        source.run(reads).1.len() == reads.len(),
        forall|i: int|
            0 <= i < reads.len() ==> (#[trigger] source.run(reads).1[i]) == source.yielded(
                reads[i],
            ),
    decreases reads.len(),
{
    if reads.len() > 0 {
        let front = reads.drop_last();
        lemma_run_without_failure(source, front);
    }
}

/// Draining. A ready source that is handed the lines of a file, each of
/// which holds an event, yields those events in their order, one for each
/// pull. Every pull after that finds the end of the stream and yields
/// nothing, however often it is repeated. An empty file yields nothing from
/// the first pull on.
pub proof fn lemma_drains_in_order(source: SourceView, lines: Seq<Seq<u8>>, polls: nat)
    requires
        source.state == Lifecycle::Ready,
        forall|i: int| 0 <= i < lines.len() ==> line_event(#[trigger] lines[i]) is Ok,
    ensures
        source.run(reads_of(lines, polls)).0 == source,
        source.run(reads_of(lines, polls)).1.len() == lines.len() + polls,
        forall|i: int|
            0 <= i < lines.len() ==> (#[trigger] source.run(reads_of(lines, polls)).1[i]) == Ok::<
                Option<EventView>,
                SourceErrorView,
            >(Some(line_event(lines[i])->Ok_0)),
        forall|i: int|
            lines.len() <= i < lines.len() + polls ==> (#[trigger] source.run(
                reads_of(lines, polls),
            ).1[i]) == Ok::<Option<EventView>, SourceErrorView>(None),
{
    let reads = reads_of(lines, polls);
    lemma_run_without_failure(source, reads);
    assert forall|i: int| 0 <= i < lines.len() implies (#[trigger] source.run(reads).1[i]) == Ok::<
        Option<EventView>,
        SourceErrorView,
    >(Some(line_event(lines[i])->Ok_0)) by {
        crate::decode::lemma_event_line_is_not_empty(lines[i]);
    }
}

/// Compression is transparent. What a source yields depends on the bytes it
/// is handed and on where it stands in its life, not on its path or on its
/// format: a source for the plain file and one for the gzip file, handed the
/// same reads, yield the same.
pub proof fn lemma_compression_is_transparent(
    plain: SourceView,
    gzip: SourceView,
    reads: Seq<ReadView>,
)
    requires
        plain.state == gzip.state,
    ensures
        plain.run(reads).1 == gzip.run(reads).1,
        plain.run(reads).0.state == gzip.run(reads).0.state,
    decreases reads.len(),
{
    if reads.len() > 0 {
        lemma_compression_is_transparent(plain, gzip, reads.drop_last());
    }
}

/// A line of valid JSON that lacks a required member yields a decode error
/// that carries the line. The source stays as it was: the line is consumed,
/// and the next pull reads the one after it.
pub proof fn lemma_incomplete_line_is_an_error(
    source: SourceView,
    raw: Seq<u8>,
    doc: crate::json::JsonValue,
    key: Seq<char>,
)
    requires
        source.state == Lifecycle::Ready,
        crate::decode::holds_document(raw, doc),
        crate::decode::is_required_key(key),
        doc.member(key) is None,
    ensures
        source.yielded(Ok(raw)) == Err::<Option<EventView>, SourceErrorView>(
            SourceErrorView::Decode(raw, DecodeReason::Schema),
        ),
        source.pulled(Ok(raw)) == source,
{
    crate::decode::lemma_line_without_member_is_refused(raw, doc, key);
}

/// Opening does not look at the content. A source for a gzip file whose
/// bytes are no gzip becomes ready like any other; the corruption shows at
/// the first pull, as the failed read that the decoder reports.
pub proof fn lemma_corruption_shows_at_the_first_pull(source: SourceView, detail: Seq<char>)
    ensures
        source.opened(true).state == Lifecycle::Ready,
        source.opened(true).yielded(Err(detail)) == Err::<Option<EventView>, SourceErrorView>(
            SourceErrorView::Io(detail),
        ),
{
}

/// Polling a source that was never opened, or that is closed, is no error:
/// it yields nothing and changes nothing, whatever it is handed.
pub proof fn lemma_idle_source_yields_nothing(source: SourceView, read: ReadView)
    requires
        source.state != Lifecycle::Ready,
    ensures
        source.yielded(read) == Ok::<Option<EventView>, SourceErrorView>(None),
        source.pulled(read) == source,
{
}

/// Closing is idempotent, and a closed source stays closed through every
/// pull.
pub proof fn lemma_close_is_final(source: SourceView, reads: Seq<ReadView>)
    ensures
        source.closed().closed() == source.closed(),
        source.closed().run(reads).0 == source.closed(),
        forall|i: int|
            0 <= i < reads.len() ==> (#[trigger] source.closed().run(reads).1[i]) == Ok::<
                Option<EventView>,
                SourceErrorView,
            >(None),
        source.closed().run(reads).1.len() == reads.len(),
    decreases reads.len(),
{
    if reads.len() > 0 {
        let front = reads.drop_last();
        lemma_close_is_final(source, front);
        assert forall|i: int| 0 <= i < reads.len() implies (#[trigger] source.closed().run(
            reads,
        ).1[i]) == Ok::<Option<EventView>, SourceErrorView>(None) by {
            if i < front.len() {
                assert(source.closed().run(front).1[i] == Ok::<
                    Option<EventView>,
                    SourceErrorView,
                >(None));
            }
        }
    }
}

/// A failed read is the last thing a source yields: it closes, and every
/// pull after it yields nothing.
pub proof fn lemma_failed_read_closes(source: SourceView, detail: Seq<char>, read: ReadView)
    requires
        source.state == Lifecycle::Ready,
    ensures
        source.yielded(Err(detail)) == Err::<Option<EventView>, SourceErrorView>(
            SourceErrorView::Io(detail),
        ),
        source.pulled(Err(detail)) == source.closed(),
        source.pulled(Err(detail)).yielded(read) == Ok::<Option<EventView>, SourceErrorView>(None),
{
}

} // verus!
