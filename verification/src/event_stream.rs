//! The streaming event decoder.
//!
//! A line-oriented source is reduced to a sequence of typed events.  Two
//! framings are accepted: dialect A, explicit `event:` / `data:` lines,
//! and dialect B, a single-line JSON envelope, tried in that order.
//! Completion is attempted after every appended line, so a frame is
//! emitted as soon as it can be; a partial frame left over when the
//! source ends is dropped silently, never reported.  A structurally bad
//! frame is reported per pull and clears the accumulator, so one bad
//! frame never wedges the stream.

use vstd::prelude::*;
use vstd::string::StrSliceExecFns;

use crate::codec::envelope_of;
use crate::codec::json_parses;
use crate::codec::json_text_valid;
use crate::codec::parse_envelope;
use crate::entities::event::Event;
use crate::entities::event::EventV;
use crate::entities::notification::Notification;
use crate::entities::status::Status;
use crate::errors::Error;
use crate::errors::ErrorV;
use crate::strutil::spec_starts_with;
use crate::strutil::spec_trim;
use crate::strutil::starts_with_exec;
use crate::strutil::str_eq;
use crate::strutil::trim_exec;

verus! {

/// A source that streaming lines can be read from.
pub trait EventStream {
    /// Read one line of text: `Ok(Some(line))` for a line, `Ok(None)`
    /// once the source is exhausted, `Err` for a transient read failure
    /// — the reader retries those rather than ending the stream.
    fn read_message(&mut self) -> Result<Option<String>, Error>;
}

/// What one completion attempt over the accumulated lines yields.
pub enum AttemptV {
    /// A full frame: this event.
    Ready(EventV),
    /// Not a full frame yet; keep accumulating.
    NotReady,
    /// A structurally bad frame: report this error, drop the frame.
    Failed(ErrorV),
}

/// The first line at or after `i` that starts with `prefix`.
pub open spec fn spec_find_prefixed(
    lines: Seq<Seq<char>>,
    i: int,
    prefix: Seq<char>,
) -> Option<Seq<char>>
    decreases lines.len() - i,
{
    if !(0 <= i < lines.len()) {
        None
    } else if spec_starts_with(lines[i], prefix) {
        Some(lines[i])
    } else {
        spec_find_prefixed(lines, i + 1, prefix)
    }
}

/// The event an (event name, optional payload) pair makes.  In dialect A
/// a missing payload just waits for a later `data:` line; in dialect B
/// the envelope is all the frame will ever say, so a missing payload is
/// an error naming the event it was missing for.
pub open spec fn spec_dispatch(
    name: Seq<char>,
    payload: Option<Seq<char>>,
    dialect_a: bool,
) -> AttemptV {
    let missing = if dialect_a {
        AttemptV::NotReady
    } else {
        AttemptV::Failed(ErrorV::MissingPayload(name))
    };
    if name == "update"@ {
        match payload {
            None => missing,
            Some(d) => if json_parses(d) {
                AttemptV::Ready(EventV::Update(d))
            } else {
                AttemptV::Failed(ErrorV::Decode)
            },
        }
    } else if name == "notification"@ {
        match payload {
            None => missing,
            Some(d) => if json_parses(d) {
                AttemptV::Ready(EventV::Notification(d))
            } else {
                AttemptV::Failed(ErrorV::Decode)
            },
        }
    } else if name == "delete"@ {
        match payload {
            None => missing,
            Some(d) => AttemptV::Ready(EventV::Delete(d)),
        }
    } else if name == "filters_changed"@ {
        AttemptV::Ready(EventV::FiltersChanged)
    } else {
        AttemptV::Failed(ErrorV::UnknownEvent(name))
    }
}

/// One attempt to complete a frame from the accumulated lines.  An
/// `event:` line anywhere selects dialect A, with the first `event:`
/// line naming the event and the first `data:` line, if any, carrying
/// the payload.  Otherwise the first line is read as a dialect-B JSON
/// envelope; until it parses as one, the frame merely keeps growing.
pub open spec fn spec_attempt(lines: Seq<Seq<char>>) -> AttemptV {
    match spec_find_prefixed(lines, 0, "event:"@) {
        Some(el) => {
            let name = spec_trim(el.skip("event:"@.len() as int));
            let payload = match spec_find_prefixed(lines, 0, "data:"@) {
                Some(dl) => Some(spec_trim(dl.skip("data:"@.len() as int))),
                None => None,
            };
            spec_dispatch(name, payload, true)
        },
        None => {
            if lines.len() == 0 {
                AttemptV::NotReady
            } else {
                match envelope_of(lines[0]) {
                    None => AttemptV::NotReady,
                    Some(env) => spec_dispatch(env.0, env.1, false),
                }
            }
        },
    }
}

/// Whether a trimmed line is noise: empty, or a comment starting with a
/// colon.  Noise is discarded without touching the frame.
pub open spec fn spec_is_noise(line: Seq<char>) -> bool {
    line.len() == 0 || line[0] == ':'
}

/// How one raw line moves the decoder: the line is trimmed, noise is
/// dropped, anything else joins the frame, and the frame is then offered
/// for completion.  Yields the emitted outcome, if any, and the new
/// accumulator.
pub open spec fn spec_push(lines: Seq<Seq<char>>, raw: Seq<char>) -> (Option<
    Result<EventV, ErrorV>,
>, Seq<Seq<char>>) {
    let line = spec_trim(raw);
    if spec_is_noise(line) {
        (None, lines)
    } else {
        let grown = lines.push(line);
        match spec_attempt(grown) {
            AttemptV::Ready(ev) => (Some(Ok(ev)), Seq::empty()),
            AttemptV::NotReady => (None, grown),
            AttemptV::Failed(e) => (Some(Err(e)), Seq::empty()),
        }
    }
}

/// Comment and blank lines never change the decoder and never produce
/// an event, wherever in the stream they stand.
pub proof fn lemma_noise_ignored(lines: Seq<Seq<char>>, raw: Seq<char>)
    requires
        spec_is_noise(spec_trim(raw)),
    ensures
        spec_push(lines, raw).0 is None,
        spec_push(lines, raw).1 == lines,
{
}

/// Whenever a pushed line makes the decoder emit — an event or an error
/// alike — the accumulator comes out empty: a bad frame is dropped whole
/// and the next frame starts fresh, so the decoder is never wedged.
pub proof fn lemma_emit_resets(lines: Seq<Seq<char>>, raw: Seq<char>)
    ensures
        spec_push(lines, raw).0 is Some ==> spec_push(lines, raw).1 == Seq::<Seq<char>>::empty(),
{
}

/// In dialect A, a frame whose event wants a payload waits for its
/// `data:` line: with an `event:` line naming `update` and no `data:`
/// line, no event and no error is emitted — if the source ends first,
/// the partial frame is simply dropped.
pub proof fn lemma_update_waits_for_payload(lines: Seq<Seq<char>>, el: Seq<char>)
    requires
        spec_find_prefixed(lines, 0, "event:"@) == Some(el),
        spec_trim(el.skip("event:"@.len() as int)) == "update"@,
        spec_find_prefixed(lines, 0, "data:"@) is None,
    ensures
        spec_attempt(lines) == AttemptV::NotReady,
{
    reveal_strlit("update");
    reveal_strlit("notification");
    reveal_strlit("delete");
    reveal_strlit("filters_changed");
}

/// The exec mirror of `AttemptV`.
enum Attempt {
    Ready(Event),
    NotReady,
    Failed(Error),
}

impl View for Attempt {
    type V = AttemptV;

    closed spec fn view(&self) -> AttemptV {
        match self {
            Attempt::Ready(ev) => AttemptV::Ready(ev@),
            Attempt::NotReady => AttemptV::NotReady,
            Attempt::Failed(e) => AttemptV::Failed(e@),
        }
    }
}

/// Find the first line starting with `prefix`.
fn find_prefixed_exec(lines: &Vec<String>, prefix: &str) -> (r: Option<usize>)
    ensures
        match r {
            Some(i) => i < lines.len() && spec_find_prefixed(lines.deep_view(), 0, prefix@)
                == Some(lines.deep_view()[i as int]) && spec_starts_with(
                lines.deep_view()[i as int],
                prefix@,
            ),
            None => spec_find_prefixed(lines.deep_view(), 0, prefix@) is None,
        },
{
    let ghost lv = lines.deep_view();
    let mut i: usize = 0;
    while i < lines.len()
        invariant
            i <= lines.len(),
            lv == lines.deep_view(),
            lv.len() == lines.len(),
            spec_find_prefixed(lv, 0, prefix@) == spec_find_prefixed(lv, i as int, prefix@),
        decreases lines.len() - i,
    {
        proof {
            assert(lv[i as int] == lines[i as int].deep_view());
        }
        if starts_with_exec(lines[i].as_str(), prefix) {
            return Some(i);
        }
        i = i + 1;
    }
    None
}

/// Turn an (event name, optional payload) pair into the outcome of a
/// completion attempt, honouring the dialect's rule for a missing
/// payload.
fn dispatch(name: String, payload: Option<String>, dialect_a: bool) -> (r: Attempt)
    ensures
        r@ == spec_dispatch(name@, payload.deep_view(), dialect_a),
{
    if str_eq(name.as_str(), "update") {
        match payload {
            None => if dialect_a {
                Attempt::NotReady
            } else {
                Attempt::Failed(Error::MissingPayload(name))
            },
            Some(d) => if json_text_valid(d.as_str()) {
                Attempt::Ready(Event::Update(Status::from_json(d)))
            } else {
                Attempt::Failed(Error::Decode)
            },
        }
    } else if str_eq(name.as_str(), "notification") {
        match payload {
            None => if dialect_a {
                Attempt::NotReady
            } else {
                Attempt::Failed(Error::MissingPayload(name))
            },
            Some(d) => if json_text_valid(d.as_str()) {
                Attempt::Ready(Event::Notification(Notification::from_json(d)))
            } else {
                Attempt::Failed(Error::Decode)
            },
        }
    } else if str_eq(name.as_str(), "delete") {
        match payload {
            None => if dialect_a {
                Attempt::NotReady
            } else {
                Attempt::Failed(Error::MissingPayload(name))
            },
            Some(d) => Attempt::Ready(Event::Delete(d)),
        }
    } else if str_eq(name.as_str(), "filters_changed") {
        Attempt::Ready(Event::FiltersChanged)
    } else {
        Attempt::Failed(Error::UnknownEvent(name))
    }
}

/// One completion attempt over the accumulated lines.
fn attempt(lines: &Vec<String>) -> (r: Attempt)
    ensures
        r@ == spec_attempt(lines.deep_view()),
{
    let ghost lv = lines.deep_view();
    match find_prefixed_exec(lines, "event:") {
        Some(i) => {
            let el = &lines[i];
            let n = el.as_str().unicode_len();
            proof {
                assert(lv[i as int] == lines[i as int].deep_view());
                reveal_strlit("event:");
                assert(n >= 6);
            }
            let name = trim_exec(el.as_str().substring_char(6, n));
            let payload = match find_prefixed_exec(lines, "data:") {
                Some(j) => {
                    let dl = &lines[j];
                    let m = dl.as_str().unicode_len();
                    proof {
                        assert(lv[j as int] == lines[j as int].deep_view());
                        reveal_strlit("data:");
                        assert(m >= 5);
                    }
                    Some(trim_exec(dl.as_str().substring_char(5, m)))
                },
                None => None,
            };
            dispatch(name, payload, true)
        },
        None => {
            if lines.len() == 0 {
                Attempt::NotReady
            } else {
                proof {
                    assert(lv[0] == lines[0].deep_view());
                }
                match parse_envelope(lines[0].as_str()) {
                    None => Attempt::NotReady,
                    Some(env) => {
                        let (name, payload) = env;
                        dispatch(name, payload, false)
                    },
                }
            }
        },
    }
}

/// The decoder's frame state: the trimmed, non-noise lines collected
/// since the last frame boundary.
pub struct FrameDecoder {
    lines: Vec<String>,
}

impl View for FrameDecoder {
    type V = Seq<Seq<char>>;

    closed spec fn view(&self) -> Seq<Seq<char>> {
        self.lines.deep_view()
    }
}

impl FrameDecoder {
    /// A decoder with an empty frame.
    pub fn new() -> (r: FrameDecoder)
        ensures
            r@ == Seq::<Seq<char>>::empty(),
    {
        let lines: Vec<String> = Vec::new();
        proof {
            assert(lines.deep_view() =~= Seq::<Seq<char>>::empty());
        }
        FrameDecoder { lines }
    }

    /// Feed one raw line.  An event or a structural error may come out;
    /// either way the frame is then empty again.
    pub fn push_line(&mut self, raw: &str) -> (r: Option<Result<Event, Error>>)
        ensures
            final(self)@ == spec_push(old(self)@, raw@).1,
            match (r, spec_push(old(self)@, raw@).0) {
                (Some(Ok(ev)), Some(Ok(evv))) => ev@ == evv,
                (Some(Err(e)), Some(Err(ev))) => e@ == ev,
                (None, None) => true,
                _ => false,
            },
    {
        let line = trim_exec(raw);
        let n = line.as_str().unicode_len();
        if n == 0 {
            return None;
        }
        if line.as_str().get_char(0) == ':' {
            return None;
        }
        let ghost prev = self.lines.deep_view();
        self.lines.push(line);
        proof {
            assert(self.lines.deep_view() =~= prev.push(spec_trim(raw@)));
        }
        match attempt(&self.lines) {
            Attempt::Ready(ev) => {
                let empty: Vec<String> = Vec::new();
                proof {
                    assert(empty.deep_view() =~= Seq::<Seq<char>>::empty());
                }
                self.lines = empty;
                Some(Ok(ev))
            },
            Attempt::NotReady => None,
            Attempt::Failed(e) => {
                let empty: Vec<String> = Vec::new();
                proof {
                    assert(empty.deep_view() =~= Seq::<Seq<char>>::empty());
                }
                self.lines = empty;
                Some(Err(e))
            },
        }
    }
}

/// Reads typed events off a line source, one frame at a time.
pub struct EventReader<R> {
    source: R,
    decoder: FrameDecoder,
}

impl<R: EventStream> EventReader<R> {
    /// The decoder's accumulated frame.
    pub closed spec fn frame(&self) -> Seq<Seq<char>> {
        self.decoder@
    }

    /// Wrap a line source; the frame starts empty.
    pub fn new(source: R) -> (r: EventReader<R>)
        ensures
            r.frame() == Seq::<Seq<char>>::empty(),
    {
        EventReader { source, decoder: FrameDecoder::new() }
    }

    /// Pull once: read one line from the source and report what it
    /// yielded.  `Pending` covers an accumulated line, noise, and a
    /// transient read error alike — pull again for more; drivers that
    /// want the blocking sequence of the streaming API just loop until
    /// something other than `Pending` comes back.  Whenever a frame is
    /// emitted — event or error — the frame store is empty afterwards,
    /// so one bad frame never wedges the stream.
    pub fn next(&mut self) -> (r: Pull)
        ensures
            r matches Pull::Event(ev) ==> (final(self).frame() == Seq::<Seq<char>>::empty()
                && exists|raw: Seq<char>|
                    (#[trigger] spec_push(old(self).frame(), raw)).0 matches Some(Ok(evv))
                        && ev@ == evv),
            r matches Pull::Bad(e) ==> (final(self).frame() == Seq::<Seq<char>>::empty()
                && exists|raw: Seq<char>|
                    (#[trigger] spec_push(old(self).frame(), raw)).0 matches Some(Err(ev))
                        && e@ == ev),
            r is Pending ==> (final(self).frame() == old(self).frame() || exists|raw: Seq<char>|
                (#[trigger] spec_push(old(self).frame(), raw)).0 is None && final(self).frame()
                    == spec_push(old(self).frame(), raw).1),
            r is Closed ==> final(self).frame() == old(self).frame(),
    {
        match self.source.read_message() {
            Err(_) => Pull::Pending,
            Ok(None) => Pull::Closed,
            Ok(Some(line)) => {
                let out = self.decoder.push_line(line.as_str());
                proof {
                    // the step on the line just read witnesses the
                    // existentials of the contract
                    let witness = spec_push(old(self).frame(), line@);
                    assert(spec_push(old(self).frame(), line@) == witness);
                }
                match out {
                    Some(Ok(ev)) => Pull::Event(ev),
                    Some(Err(e)) => Pull::Bad(e),
                    None => Pull::Pending,
                }
            },
        }
    }
}

/// What one pull of an `EventReader` yields.
#[derive(Debug)]
pub enum Pull {
    /// A full frame, decoded to this event.
    Event(Event),
    /// A structurally bad frame: its error, the frame dropped.
    Bad(Error),
    /// No full frame yet — a line was accumulated, noise was skipped,
    /// or a transient read error occurred.  Pull again.
    Pending,
    /// The source is exhausted; the sequence is over for good.
    Closed,
}

} // verus!
