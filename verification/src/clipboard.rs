//! Bounded clipboard transfers between the browser and the desktop's clients.
//!
//! A new selection drops the transfer of the previous one, so that a slow producer
//! never overwrites what was selected after it was asked.

use crate::clock::Instant;
use crate::messages::{ClipboardText, MAX_CLIPBOARD_BYTES};
use crate::text::{from_utf8, same_text};
use std::sync::Arc;
use vstd::prelude::*;

verus! {

/// How long a transfer may take.
pub const TRANSFER_TIMEOUT_NANOS: u64 = 3_000_000_000;

/// How many clients may read the browser's text at a time.
pub const MAX_WRITES: usize = 8;

/// How many bytes are read or written at a time.
pub const CHUNK_BYTES: usize = 65536;

/// The text formats that a client may offer, the preferred one first.
#[derive(Clone, Copy, Debug, PartialEq, Eq, Structural)]
pub enum TextFormat {
    Utf8,
    Plain,
    Utf8String,
}

impl TextFormat {
    pub open spec fn spec_name(self) -> Seq<char> {
        match self {
            TextFormat::Utf8 => "text/plain;charset=utf-8"@,
            TextFormat::Plain => "text/plain"@,
            TextFormat::Utf8String => "UTF8_STRING"@,
        }
    }

    pub fn name(self) -> (r: &'static str)
        ensures
            r@ == self.spec_name(),
    {
        match self {
            TextFormat::Utf8 => "text/plain;charset=utf-8",
            TextFormat::Plain => "text/plain",
            TextFormat::Utf8String => "UTF8_STRING",
        }
    }
}

pub open spec fn offers(types: Seq<Seq<char>>, format: TextFormat) -> bool {
    types.contains(format.spec_name())
}

/// The format that an offer is read in.
pub open spec fn preferred(types: Seq<Seq<char>>) -> Option<TextFormat> {
    if offers(types, TextFormat::Utf8) {
        Some(TextFormat::Utf8)
    } else if offers(types, TextFormat::Plain) {
        Some(TextFormat::Plain)
    } else if offers(types, TextFormat::Utf8String) {
        Some(TextFormat::Utf8String)
    } else {
        None
    }
}

pub open spec fn names(types: Seq<String>) -> Seq<Seq<char>> {
    types.map_values(|name: String| name@)
}

fn has_format(types: &Vec<String>, format: TextFormat) -> (r: bool)
    ensures
        r == offers(names(types@), format),
{
    let mut index: usize = 0;
    while index < types.len()
        invariant
            index <= types.len(),
            forall|i: int| 0 <= i < index ==> (#[trigger] names(types@)[i]) != format.spec_name(),
        decreases types.len() - index,
    {
        if same_text(types[index].as_str(), format.name()) {
            assert(names(types@)[index as int] == format.spec_name());
            return true;
        }
        index = index + 1;
    }
    false
}

fn prefer(types: &Vec<String>) -> (r: Option<TextFormat>)
    ensures
        r == preferred(names(types@)),
{
    if has_format(types, TextFormat::Utf8) {
        Some(TextFormat::Utf8)
    } else if has_format(types, TextFormat::Plain) {
        Some(TextFormat::Plain)
    } else if has_format(types, TextFormat::Utf8String) {
        Some(TextFormat::Utf8String)
    } else {
        None
    }
}

/// The text of a client's selection, as far as it has come in.
#[derive(Debug)]
pub struct ClipboardRead {
    pub bytes: Vec<u8>,
    pub deadline: Instant,
}

#[derive(Debug)]
pub struct Clipboard {
    /// The formats of a selection that was announced but not asked for yet.
    pub pending_offer: Option<Vec<String>>,
    pub read: Option<ClipboardRead>,
    pub last_text: Option<ClipboardText>,
}

#[verifier::ext_equal]
pub struct ReadModel {
    pub bytes: Seq<u8>,
    pub deadline: Instant,
}

#[verifier::ext_equal]
pub struct ClipboardModel {
    pub pending_offer: Option<Seq<Seq<char>>>,
    pub read: Option<ReadModel>,
    pub last_text: Option<Seq<char>>,
}

/// What a tick does about a selection that was announced.
#[derive(Clone, Copy, Debug, PartialEq, Eq, Structural)]
pub enum OfferPlan {
    /// No selection was announced, or none with text.
    Nothing,
    /// The selection was cleared, which reads as an empty text.
    Cleared,
    /// The client is asked for its text.
    Request { format: TextFormat },
}

/// What reading from a client gave.
#[derive(Debug)]
pub enum ReadOutcome {
    End,
    Data(Vec<u8>),
    /// Nothing is there yet, or a signal came in between.
    Blocked,
    Failed,
}

impl ClipboardModel {
    /// The browser's text becomes the selection.
    pub open spec fn set_to(self, text: Seq<char>) -> Self {
        ClipboardModel { pending_offer: None, read: None, last_text: Some(text) }
    }

    /// A client announced a selection.
    pub open spec fn offered(self, types: Seq<Seq<char>>) -> Self {
        ClipboardModel { pending_offer: Some(types), read: None, last_text: self.last_text }
    }

    pub open spec fn offer_plan(self) -> OfferPlan {
        match self.pending_offer {
            None => OfferPlan::Nothing,
            Some(types) => if types.len() == 0 {
                OfferPlan::Cleared
            } else {
                match preferred(types) {
                    Some(format) => OfferPlan::Request { format },
                    None => OfferPlan::Nothing,
                }
            },
        }
    }

    pub open spec fn offer_taken(self) -> Self {
        ClipboardModel { pending_offer: None, ..self }
    }

    /// Whether a read is under way and has time left.
    pub open spec fn reading(self, now: Instant) -> bool {
        self.read matches Some(read) && now.nanos < read.deadline.nanos
    }

    /// The bytes that have come in once an outcome is taken in, where the read goes
    /// on.
    pub open spec fn continued(self, now: Instant, outcome: ReadOutcome) -> Option<Seq<u8>> {
        if !self.reading(now) {
            None
        } else {
            let bytes = self.read->Some_0.bytes;
            match outcome {
                ReadOutcome::Data(data) if bytes.len() + data@.len() <= MAX_CLIPBOARD_BYTES => Some(
                    bytes + data@,
                ),
                ReadOutcome::Blocked => Some(bytes),
                _ => None,
            }
        }
    }

    /// The text of a read that has come to its end.
    pub open spec fn completed(self, now: Instant, outcome: ReadOutcome) -> Option<Seq<char>> {
        if self.reading(now) && outcome is End && vstd::utf8::valid_utf8(
            self.read->Some_0.bytes,
        ) && ClipboardText::valid(vstd::utf8::decode_utf8(self.read->Some_0.bytes)) {
            Some(vstd::utf8::decode_utf8(self.read->Some_0.bytes))
        } else {
            None
        }
    }

    pub open spec fn after_read(self, now: Instant, outcome: ReadOutcome) -> Self {
        ClipboardModel {
            read: match self.continued(now, outcome) {
                Some(bytes) => Some(
                    ReadModel { bytes, deadline: self.read->Some_0.deadline },
                ),
                None => None,
            },
            ..self
        }
    }

    pub open spec fn published(self, text: Seq<char>) -> Self {
        ClipboardModel { last_text: Some(text), ..self }
    }
}

impl Clipboard {
    pub open spec fn view(&self) -> ClipboardModel {
        ClipboardModel {
            pending_offer: match self.pending_offer {
                Some(types) => Some(names(types@)),
                None => None,
            },
            read: match self.read {
                Some(read) => Some(ReadModel { bytes: read.bytes@, deadline: read.deadline }),
                None => None,
            },
            last_text: match self.last_text {
                Some(text) => Some(text@),
                None => None,
            },
        }
    }

    /// No read holds more than the clipboard's limit.
    pub open spec fn wf(&self) -> bool {
        self.read matches Some(read) ==> read.bytes.len() <= MAX_CLIPBOARD_BYTES
    }

    pub fn new() -> (r: Self)
        ensures
            r.wf(),
            r@ == (ClipboardModel { pending_offer: None, read: None, last_text: None }),
    {
        Clipboard { pending_offer: None, read: None, last_text: None }
    }

    /// Takes the browser's text as the selection. What a client offered before is
    /// forgotten.
    pub fn set(&mut self, text: &ClipboardText)
        ensures
            final(self).wf(),
            final(self)@ == old(self)@.set_to(text@),
    {
        self.pending_offer = None;
        self.read = None;
        self.last_text = Some(text.clone());
        assert(self@ =~= old(self)@.set_to(text@));
    }

    /// Takes the formats of a client's new selection in; none when the selection was
    /// cleared. The client is asked at the next tick, when its selection is in place.
    pub fn offer(&mut self, types: Vec<String>)
        ensures
            final(self).wf(),
            final(self)@ == old(self)@.offered(names(types@)),
    {
        self.read = None;
        self.pending_offer = Some(types);
        assert(self@ =~= old(self)@.offered(names(types@)));
    }

    /// Decides about an announced selection, which is then no longer pending.
    pub fn begin_tick(&mut self) -> (plan: OfferPlan)
        requires
            old(self).wf(),
        ensures
            final(self).wf(),
            plan == old(self)@.offer_plan(),
            final(self)@ == old(self)@.offer_taken(),
    {
        let plan: OfferPlan = match &self.pending_offer {
            None => OfferPlan::Nothing,
            Some(types) => {
                if types.len() == 0 {
                    OfferPlan::Cleared
                } else {
                    match prefer(types) {
                        Some(format) => OfferPlan::Request { format },
                        None => OfferPlan::Nothing,
                    }
                }
            },
        };
        self.pending_offer = None;
        assert(self@ =~= old(self)@.offer_taken());
        plan
    }

    /// The client was asked for its text.
    pub fn requested(&mut self, now: Instant)
        ensures
            final(self).wf(),
            final(self)@ == (ClipboardModel {
                read: Some(
                    ReadModel {
                        bytes: Seq::empty(),
                        deadline: now.spec_plus(TRANSFER_TIMEOUT_NANOS as int),
                    },
                ),
                ..old(self)@
            }),
            now.nanos <= u64::MAX - 3_000_000_000 ==> final(self)@.read->0.deadline.nanos
                == now.nanos + 3_000_000_000,
    {
        let bytes: Vec<u8> = Vec::new();
        self.read = Some(ClipboardRead { bytes, deadline: now.plus(TRANSFER_TIMEOUT_NANOS) });
        assert(self@.read->Some_0.bytes =~= Seq::<u8>::empty());
        assert(self@ =~= (ClipboardModel { read: self@.read, ..old(self)@ }));
    }

    /// Whether the client's pipe is to be read now.
    pub fn wants_read(&self, now: Instant) -> (r: bool)
        ensures
            r == self@.reading(now),
    {
        match &self.read {
            Some(read) => now.nanos < read.deadline.nanos,
            None => false,
        }
    }

    /// Takes in what reading from the client gave; `Failed` where its time was up
    /// before anything was read. The read goes on while the client is slow, up to
    /// its deadline and to the clipboard's limit; at its end, valid text comes out.
    pub fn finish_read(&mut self, now: Instant, outcome: ReadOutcome) -> (text: Option<
        ClipboardText,
    >)
        requires
            old(self).wf(),
        ensures
            final(self).wf(),
            final(self)@ == old(self)@.after_read(now, outcome),
            match text {
                Some(text) => old(self)@.completed(now, outcome) == Some(text@),
                None => old(self)@.completed(now, outcome) is None,
            },
    {
        let ghost before = self@;
        if !self.wants_read(now) {
            self.read = None;
            assert(self@ =~= before.after_read(now, outcome));
            return None;
        }
        let mut taken: Option<ClipboardRead> = None;
        std::mem::swap(&mut self.read, &mut taken);
        let read: ClipboardRead = match taken {
            Some(read) => read,
            None => {
                return None;
            },
        };
        match outcome {
            ReadOutcome::End => {
                assert(self@ =~= before.after_read(now, outcome));
                match from_utf8(read.bytes) {
                    Some(text) => ClipboardText::new(text),
                    None => None,
                }
            },
            ReadOutcome::Data(data) => {
                if data.len() <= MAX_CLIPBOARD_BYTES - read.bytes.len() {
                    let mut bytes: Vec<u8> = read.bytes;
                    bytes.extend_from_slice(data.as_slice());
                    assert(bytes@ =~= before.read->Some_0.bytes + data@);
                    self.read = Some(ClipboardRead { bytes, deadline: read.deadline });
                }
                assert(self@ =~= before.after_read(now, outcome));
                None
            },
            ReadOutcome::Blocked => {
                self.read = Some(read);
                assert(self@ =~= before.after_read(now, outcome));
                None
            },
            ReadOutcome::Failed => {
                assert(self@ =~= before.after_read(now, outcome));
                None
            },
        }
    }

    /// Whether a text that came in is reported to the browser: only if it differs
    /// from the last one that either side knows.
    pub fn publish(&mut self, text: &ClipboardText) -> (news: bool)
        requires
            old(self).wf(),
        ensures
            final(self).wf(),
            news == (old(self)@.last_text != Some(text@)),
            final(self)@ == old(self)@.published(text@),
    {
        let known: bool = match &self.last_text {
            Some(last) => last.same(text),
            None => false,
        };
        if !known {
            self.last_text = Some(text.clone());
        }
        assert(self@ =~= old(self)@.published(text@));
        !known
    }
}

/// A selection that was replaced, by the browser or by a client, never delivers its
/// text: whatever its producer still sends, no read takes it in.
pub proof fn law_replaced_selections_deliver_nothing(
    clipboard: ClipboardModel,
    text: Seq<char>,
    types: Seq<Seq<char>>,
    now: Instant,
    outcome: ReadOutcome,
)
    ensures
        clipboard.set_to(text).completed(now, outcome) is None,
        clipboard.set_to(text).after_read(now, outcome) == clipboard.set_to(text),
        clipboard.offered(types).completed(now, outcome) is None,
        clipboard.offered(types).after_read(now, outcome) == clipboard.offered(types),
{
}

/// A text that a client sends in however many pieces, each within the time, comes out
/// whole if it keeps to the limit; a read that exceeds the limit is closed.
pub proof fn law_pieces_make_up_the_text(
    clipboard: ClipboardModel,
    pieces: Seq<(Vec<u8>, Instant)>,
    end: Instant,
)
    requires
        clipboard.read is Some,
        clipboard.read->Some_0.bytes.len() <= MAX_CLIPBOARD_BYTES,
        forall|i: int|
            0 <= i < pieces.len() ==> (#[trigger] pieces[i]).1.nanos
                < clipboard.read->Some_0.deadline.nanos,
        end.nanos < clipboard.read->Some_0.deadline.nanos,
    ensures
        ({
            let bytes = clipboard.read->Some_0.bytes + joined(pieces);
            let after = after_pieces(clipboard, pieces);
            if bytes.len() <= MAX_CLIPBOARD_BYTES {
                &&& after.read == Some(
                    ReadModel { bytes, deadline: clipboard.read->Some_0.deadline },
                )
                &&& after.completed(end, ReadOutcome::End) == if vstd::utf8::valid_utf8(bytes)
                    && ClipboardText::valid(vstd::utf8::decode_utf8(bytes)) {
                    Some(vstd::utf8::decode_utf8(bytes))
                } else {
                    None
                }
            } else {
                after.read is None && after.completed(end, ReadOutcome::End) is None
            }
        }),
    decreases pieces.len(),
{
    let held = clipboard.read->Some_0.bytes;
    if pieces.len() == 0 {
        assert(held + joined(pieces) =~= held);
    } else {
        let earlier = pieces.drop_last();
        assert forall|i: int| 0 <= i < earlier.len() implies (#[trigger] earlier[i]).1.nanos
            < clipboard.read->Some_0.deadline.nanos by {
            assert(earlier[i] == pieces[i]);
        }
        law_pieces_make_up_the_text(clipboard, earlier, end);
        assert(pieces.last() == pieces[pieces.len() - 1]);
        assert(held + joined(pieces) =~= (held + joined(earlier)) + pieces.last().0@);
    }
}

/// The bytes of all pieces.
pub open spec fn joined(pieces: Seq<(Vec<u8>, Instant)>) -> Seq<u8>
    decreases pieces.len(),
{
    if pieces.len() == 0 {
        Seq::empty()
    } else {
        joined(pieces.drop_last()) + pieces.last().0@
    }
}

/// The clipboard after it has read pieces, each at its time.
pub open spec fn after_pieces(clipboard: ClipboardModel, pieces: Seq<(Vec<u8>, Instant)>) ->
    ClipboardModel
    decreases pieces.len(),
{
    if pieces.len() == 0 {
        clipboard
    } else {
        after_pieces(clipboard, pieces.drop_last()).after_read(
            pieces.last().1,
            ReadOutcome::Data(pieces.last().0),
        )
    }
}

/// Whether a client that asks for the browser's text is served: it must ask for one
/// of the formats that were announced, and not too many others may be at it.
pub fn serves(mime: &str, open_writes: usize) -> (r: bool)
    ensures
        r == ((mime@ == TextFormat::Utf8.spec_name() || mime@ == TextFormat::Plain.spec_name())
            && open_writes < MAX_WRITES),
        r <==> (mime@ == "text/plain;charset=utf-8"@ || mime@ == "text/plain"@) && open_writes < 8,
{
    (same_text(mime, TextFormat::Utf8.name()) || same_text(mime, TextFormat::Plain.name()))
        && open_writes < MAX_WRITES
}

/// The browser's text on its way to a client.
#[derive(Debug)]
pub struct ClipboardWrite {
    pub bytes: Arc<Vec<u8>>,
    pub offset: usize,
    pub deadline: Instant,
}

/// What writing to a client gave.
#[derive(Clone, Copy, Debug, PartialEq, Eq, Structural)]
pub enum WriteOutcome {
    Wrote(usize),
    /// The client reads slowly, or a signal came in between.
    Blocked,
    Failed,
}

/// How many bytes a client took.
pub open spec fn taken(outcome: WriteOutcome) -> int {
    match outcome {
        WriteOutcome::Wrote(count) => count as int,
        _ => 0,
    }
}

/// Whether a write goes on that has come to `offset` of `length` bytes.
pub open spec fn more_to_write(offset: int, length: int, outcome: WriteOutcome) -> bool {
    match outcome {
        WriteOutcome::Wrote(count) => count > 0 && offset < length,
        WriteOutcome::Blocked => true,
        WriteOutcome::Failed => false,
    }
}

impl ClipboardWrite {
    pub open spec fn wf(&self) -> bool {
        self.offset <= self.bytes@.len()
    }

    pub fn new(bytes: Arc<Vec<u8>>, now: Instant) -> (r: Self)
        ensures
            r.wf(),
            r.bytes == bytes,
            r.offset == 0,
            r.deadline == now.spec_plus(TRANSFER_TIMEOUT_NANOS as int),
            now.nanos <= u64::MAX - 3_000_000_000 ==> r.deadline.nanos == now.nanos + 3_000_000_000,
    {
        ClipboardWrite { bytes, offset: 0, deadline: now.plus(TRANSFER_TIMEOUT_NANOS) }
    }

    pub open spec fn chunk_end(&self) -> int {
        if self.offset + CHUNK_BYTES <= self.bytes@.len() {
            self.offset + CHUNK_BYTES
        } else {
            self.bytes@.len() as int
        }
    }

    /// The part of the text that is written next, by its bounds. `None` when the
    /// client's time is up.
    pub fn chunk(&self, now: Instant) -> (r: Option<(usize, usize)>)
        requires
            self.wf(),
        ensures
            match r {
                Some((from, to)) => now.nanos < self.deadline.nanos && from == self.offset && to
                    == self.chunk_end(),
                None => now.nanos >= self.deadline.nanos,
            },
    {
        if now.nanos >= self.deadline.nanos {
            return None;
        }
        let length: usize = self.bytes.len();
        let to: usize = if CHUNK_BYTES <= length - self.offset {
            self.offset + CHUNK_BYTES
        } else {
            length
        };
        Some((self.offset, to))
    }

    /// Takes in what writing gave and says whether the write goes on: it ends when
    /// everything was written, when the client takes nothing, and at an error.
    pub fn wrote(&mut self, outcome: WriteOutcome) -> (goes_on: bool)
        requires
            old(self).wf(),
            outcome matches WriteOutcome::Wrote(count) ==> old(self).offset + count <= old(self).bytes@.len(),
        ensures
            final(self).wf(),
            final(self).bytes == old(self).bytes,
            final(self).deadline == old(self).deadline,
            final(self).offset == match outcome {
                WriteOutcome::Wrote(count) => old(self).offset + count,
                _ => old(self).offset as int,
            },
            goes_on == match outcome {
                WriteOutcome::Wrote(count) => count > 0 && final(self).offset < old(self).bytes@.len(),
                WriteOutcome::Blocked => true,
                WriteOutcome::Failed => false,
            },
            final(self).offset == old(self).offset + taken(outcome),
            goes_on == more_to_write(final(self).offset as int, old(self).bytes@.len() as int, outcome),
    {
        match outcome {
            WriteOutcome::Wrote(count) => {
                let length: usize = self.bytes.len();
                self.offset = self.offset + count;
                count > 0 && self.offset < length
            },
            WriteOutcome::Blocked => true,
            WriteOutcome::Failed => false,
        }
    }
}

/// Who owns a selection that no Wayland client owns.
#[derive(Clone, Copy, Debug, PartialEq, Eq, Structural)]
pub enum SelectionOwner {
    /// The compositor, with the browser's text.
    Browser,
    X11,
}

/// How a client that pastes is answered.
#[derive(Clone, Copy, Debug, PartialEq, Eq, Structural)]
pub enum PasteRoute {
    /// The browser's text is written to it.
    WriteText,
    /// The X11 client that owns the selection is asked.
    AskX11,
    /// The Wayland client that owns the selection is asked.
    AskClient,
    Nothing,
}

/// The way that X11 clients get at a selection.
pub open spec fn x11_route(owner: Option<SelectionOwner>) -> PasteRoute {
    match owner {
        Some(SelectionOwner::Browser) => PasteRoute::WriteText,
        Some(SelectionOwner::X11) => PasteRoute::Nothing,
        None => PasteRoute::AskClient,
    }
}

/// The way that Wayland clients get at a selection.
pub open spec fn wayland_route(owner: Option<SelectionOwner>) -> PasteRoute {
    match owner {
        Some(SelectionOwner::Browser) => PasteRoute::WriteText,
        Some(SelectionOwner::X11) => PasteRoute::AskX11,
        None => PasteRoute::Nothing,
    }
}

/// The way that the compositor gets at a selection.
pub open spec fn asked_route(owner: Option<SelectionOwner>) -> PasteRoute {
    match owner {
        Some(SelectionOwner::X11) => PasteRoute::AskX11,
        _ => PasteRoute::AskClient,
    }
}

/// Answers an X11 client that pastes: X11 serves its own selections itself.
pub fn x11_paste_route(owner: Option<SelectionOwner>) -> (r: PasteRoute)
    ensures
        r == match owner {
            Some(SelectionOwner::Browser) => PasteRoute::WriteText,
            Some(SelectionOwner::X11) => PasteRoute::Nothing,
            None => PasteRoute::AskClient,
        },
        r == x11_route(owner),
{
    match owner {
        Some(SelectionOwner::Browser) => PasteRoute::WriteText,
        Some(SelectionOwner::X11) => PasteRoute::Nothing,
        None => PasteRoute::AskClient,
    }
}

/// Answers a Wayland client that pastes a selection of the compositor's.
pub fn client_paste_route(owner: SelectionOwner) -> (r: PasteRoute)
    ensures
        r == match owner {
            SelectionOwner::Browser => PasteRoute::WriteText,
            SelectionOwner::X11 => PasteRoute::AskX11,
        },
        r == wayland_route(Some(owner)),
{
    match owner {
        SelectionOwner::Browser => PasteRoute::WriteText,
        SelectionOwner::X11 => PasteRoute::AskX11,
    }
}

/// Whom the compositor asks for the text of a selection that was announced.
pub fn read_route(owner: Option<SelectionOwner>) -> (r: PasteRoute)
    ensures
        r == if owner == Some(SelectionOwner::X11) {
            PasteRoute::AskX11
        } else {
            PasteRoute::AskClient
        },
        r == asked_route(owner),
{
    match owner {
        Some(SelectionOwner::X11) => PasteRoute::AskX11,
        Some(SelectionOwner::Browser) => PasteRoute::AskClient,
        None => PasteRoute::AskClient,
    }
}

/// Whether the selection is cleared when X11 gives one up: only if it was X11's.
pub fn clears_selection(owner: Option<SelectionOwner>) -> (r: bool)
    ensures
        r == (owner == Some(SelectionOwner::X11)),
{
    match owner {
        Some(SelectionOwner::X11) => true,
        Some(SelectionOwner::Browser) => false,
        None => false,
    }
}

/// An offer is read in the best of the formats that it names: UTF-8 text before plain
/// text before the X11 name of UTF-8, and in none where it names none of them.
pub proof fn law_offers_are_read_in_the_best_format(types: Seq<Seq<char>>)
    ensures
        preferred(types) == Some(TextFormat::Utf8) <==> types.contains(
            "text/plain;charset=utf-8"@,
        ),
        preferred(types) == Some(TextFormat::Plain) <==> !types.contains(
            "text/plain;charset=utf-8"@,
        ) && types.contains("text/plain"@),
        preferred(types) == Some(TextFormat::Utf8String) <==> !types.contains(
            "text/plain;charset=utf-8"@,
        ) && !types.contains("text/plain"@) && types.contains("UTF8_STRING"@),
        preferred(types) is None <==> !types.contains("text/plain;charset=utf-8"@)
            && !types.contains("text/plain"@) && !types.contains("UTF8_STRING"@),
{
}

/// A selection that was announced is asked for once: for its text in the best format, or
/// not at all where it has none. A selection without formats was cleared.
pub proof fn law_selections_are_asked_for_once(clipboard: ClipboardModel, types: Seq<Seq<char>>)
    ensures
        ({
            let offered = clipboard.offered(types);
            &&& types.len() == 0 ==> offered.offer_plan() == OfferPlan::Cleared
            &&& types.len() > 0 ==> (preferred(types) matches Some(format)
                ==> offered.offer_plan() == (OfferPlan::Request { format }))
            &&& types.len() > 0 && preferred(types) is None ==> offered.offer_plan()
                == OfferPlan::Nothing
            &&& offered.offer_taken().offer_plan() == OfferPlan::Nothing
            &&& offered.last_text == clipboard.last_text
            &&& offered.offer_taken().last_text == clipboard.last_text
            &&& offered.read is None
        }),
        clipboard.pending_offer is None ==> clipboard.offer_plan() == OfferPlan::Nothing,
        clipboard.offer_taken().read == clipboard.read,
{
}

/// The browser's text replaces what was selected: no offer and no read is left, and it
/// is the text that either side knows last.
pub proof fn law_the_browser_replaces_the_selection(clipboard: ClipboardModel, text: Seq<char>)
    ensures
        clipboard.set_to(text).pending_offer is None,
        clipboard.set_to(text).read is None,
        clipboard.set_to(text).last_text == Some(text),
        clipboard.published(text).last_text == Some(text),
        clipboard.published(text).read == clipboard.read,
        clipboard.published(text).pending_offer == clipboard.pending_offer,
{
}

/// A read goes on while its time lasts, nothing fails, and no more than a megabyte came
/// in; a slow client changes nothing. Text comes out at the end and only then.
pub proof fn law_reads_end_with_the_text(
    clipboard: ClipboardModel,
    now: Instant,
    outcome: ReadOutcome,
)
    requires
        clipboard.read is Some,
    ensures
        ({
            let read = clipboard.read->0;
            let in_time = now.nanos < read.deadline.nanos;
            let after = clipboard.after_read(now, outcome);
            &&& !in_time ==> after.read is None && clipboard.completed(now, outcome) is None
            &&& in_time && outcome is Blocked ==> after == clipboard
            &&& outcome is Failed || outcome is End ==> after.read is None
            &&& in_time ==> (outcome matches ReadOutcome::Data(data) ==> if read.bytes.len()
                + data@.len() <= 1_048_576 {
                after.read == Some(
                    ReadModel { bytes: read.bytes + data@, deadline: read.deadline },
                )
            } else {
                after.read is None
            })
            &&& !(outcome is End) ==> clipboard.completed(now, outcome) is None
            &&& in_time && outcome is End && vstd::utf8::valid_utf8(read.bytes)
                && vstd::utf8::encode_utf8(vstd::utf8::decode_utf8(read.bytes)).len() <= 1_048_576
                ==> clipboard.completed(now, outcome) == Some(vstd::utf8::decode_utf8(read.bytes))
            &&& !vstd::utf8::valid_utf8(read.bytes) ==> clipboard.completed(now, outcome) is None
            &&& after.last_text == clipboard.last_text
            &&& after.pending_offer == clipboard.pending_offer
        }),
{
}

/// The text is written in parts of up to 64 KiB, each of which starts where the one
/// before it ended, until its end.
pub proof fn law_texts_are_written_part_by_part(write: ClipboardWrite)
    requires
        write.wf(),
    ensures
        write.offset <= write.chunk_end() <= write.bytes@.len(),
        write.chunk_end() - write.offset <= 65_536,
        write.chunk_end() < write.bytes@.len() ==> write.chunk_end() == write.offset + 65_536,
        write.offset < write.bytes@.len() ==> write.offset < write.chunk_end(),
{
}

/// Who is asked for a selection: the browser's text is written by the compositor itself,
/// an X11 selection is fetched from X11 but for X11 clients, who get it there, and any
/// other comes from the Wayland client that owns it.
pub proof fn law_pastes_come_from_the_owner(owner: Option<SelectionOwner>)
    ensures
        x11_route(owner) == PasteRoute::WriteText <==> owner == Some(SelectionOwner::Browser),
        wayland_route(owner) == PasteRoute::WriteText <==> owner == Some(SelectionOwner::Browser),
        x11_route(owner) == PasteRoute::Nothing <==> owner == Some(SelectionOwner::X11),
        wayland_route(owner) == PasteRoute::AskX11 <==> owner == Some(SelectionOwner::X11),
        asked_route(owner) == PasteRoute::AskX11 <==> owner == Some(SelectionOwner::X11),
        x11_route(owner) == PasteRoute::AskClient <==> owner is None,
        asked_route(owner) == PasteRoute::AskClient <==> owner != Some(SelectionOwner::X11),
{
}

/// A write goes on while something is left and the client takes some of it or is slow;
/// it ends with the last byte, when the client takes nothing, and at an error.
pub proof fn law_writes_go_on_while_something_is_left(
    offset: int,
    length: int,
    outcome: WriteOutcome,
)
    ensures
        outcome is Blocked ==> more_to_write(offset, length, outcome) && taken(outcome) == 0,
        outcome is Failed ==> !more_to_write(offset, length, outcome) && taken(outcome) == 0,
        outcome matches WriteOutcome::Wrote(count) ==> taken(outcome) == count && (more_to_write(
            offset,
            length,
            outcome,
        ) <==> count != 0 && offset < length),
{
}

} // verus!
