use std::sync::Arc;

use waywire::clipboard::{
    client_paste_route, clears_selection, read_route, serves, x11_paste_route, Clipboard,
    ClipboardWrite, OfferPlan, PasteRoute, ReadOutcome, SelectionOwner, TextFormat, WriteOutcome,
    CHUNK_BYTES, MAX_WRITES, TRANSFER_TIMEOUT_NANOS,
};
use waywire::clock::Instant;
use waywire::messages::{ClipboardText, MAX_CLIPBOARD_BYTES};

const START: Instant = Instant { nanos: 1_000 };

fn types(names: &[&str]) -> Vec<String> {
    names.iter().map(|name| (*name).to_owned()).collect()
}

fn text(value: &str) -> ClipboardText {
    ClipboardText::new(value.to_owned()).expect("test clipboard should be valid")
}

#[test]
fn the_preferred_format_is_asked_for() {
    for (offered, plan) in [
        (
            types(&["UTF8_STRING", "text/plain", "text/plain;charset=utf-8"]),
            OfferPlan::Request {
                format: TextFormat::Utf8,
            },
        ),
        (
            types(&["UTF8_STRING", "text/plain"]),
            OfferPlan::Request {
                format: TextFormat::Plain,
            },
        ),
        (
            types(&["image/png", "UTF8_STRING"]),
            OfferPlan::Request {
                format: TextFormat::Utf8String,
            },
        ),
        (types(&["image/png"]), OfferPlan::Nothing),
        (types(&[]), OfferPlan::Cleared),
    ] {
        let mut clipboard = Clipboard::new();
        assert_eq!(clipboard.begin_tick(), OfferPlan::Nothing);
        clipboard.offer(offered);
        assert_eq!(clipboard.begin_tick(), plan);
        assert_eq!(clipboard.begin_tick(), OfferPlan::Nothing);
    }
}

#[test]
fn pieces_make_up_the_text() {
    let mut clipboard = Clipboard::new();
    clipboard.requested(START);
    assert!(clipboard.wants_read(START));
    assert!(clipboard
        .finish_read(START, ReadOutcome::Data(b"caf\xc3".to_vec()))
        .is_none());
    assert!(clipboard.finish_read(START, ReadOutcome::Blocked).is_none());
    assert!(clipboard
        .finish_read(START.plus(1), ReadOutcome::Data(b"\xa9".to_vec()))
        .is_none());
    let read = clipboard
        .finish_read(START.plus(2), ReadOutcome::End)
        .expect("the text should be complete");
    assert_eq!(read.as_str(), "café");
    assert!(!clipboard.wants_read(START));
    assert!(clipboard.publish(&read));
    assert!(!clipboard.publish(&read));
}

#[test]
fn reads_end_without_a_text_when_they_fail() {
    let late = START.plus(TRANSFER_TIMEOUT_NANOS);
    let mut clipboard = Clipboard::new();
    clipboard.requested(START);
    assert!(clipboard.finish_read(late, ReadOutcome::End).is_none());

    clipboard.requested(START);
    let _ = clipboard.finish_read(START, ReadOutcome::Data(vec![0xff]));
    assert!(clipboard.finish_read(START, ReadOutcome::End).is_none());

    clipboard.requested(START);
    let _ = clipboard.finish_read(START, ReadOutcome::Data(vec![b'a'; MAX_CLIPBOARD_BYTES]));
    assert!(clipboard.wants_read(START));
    let _ = clipboard.finish_read(START, ReadOutcome::Data(vec![b'a']));
    assert!(!clipboard.wants_read(START));

    clipboard.requested(START);
    assert!(clipboard.finish_read(START, ReadOutcome::Failed).is_none());
    assert!(!clipboard.wants_read(START));
}

#[test]
fn replaced_selections_deliver_nothing() {
    let mut clipboard = Clipboard::new();
    clipboard.requested(START);
    let _ = clipboard.finish_read(START, ReadOutcome::Data(b"old".to_vec()));
    clipboard.set(&text("browser"));
    assert!(clipboard.finish_read(START, ReadOutcome::End).is_none());
    assert!(!clipboard.publish(&text("browser")));

    clipboard.requested(START);
    let _ = clipboard.finish_read(START, ReadOutcome::Data(b"old".to_vec()));
    clipboard.offer(types(&["text/plain"]));
    assert!(clipboard.finish_read(START, ReadOutcome::End).is_none());
}

#[test]
fn few_clients_are_served_at_a_time() {
    assert!(serves("text/plain", 0));
    assert!(serves("text/plain;charset=utf-8", MAX_WRITES - 1));
    assert!(!serves("text/plain", MAX_WRITES));
    assert!(!serves("UTF8_STRING", 0));
}

#[test]
fn texts_are_written_in_chunks() {
    let mut write = ClipboardWrite::new(Arc::new(vec![7; CHUNK_BYTES + 10]), START);
    assert_eq!(write.chunk(START), Some((0, CHUNK_BYTES)));
    assert!(write.wrote(WriteOutcome::Wrote(CHUNK_BYTES)));
    assert!(write.wrote(WriteOutcome::Blocked));
    assert_eq!(write.chunk(START), Some((CHUNK_BYTES, CHUNK_BYTES + 10)));
    assert!(!write.wrote(WriteOutcome::Wrote(10)));
    assert_eq!(write.chunk(START.plus(TRANSFER_TIMEOUT_NANOS)), None);

    let mut write = ClipboardWrite::new(Arc::new(vec![7; 10]), START);
    assert!(!write.wrote(WriteOutcome::Wrote(0)));
    assert!(!write.wrote(WriteOutcome::Failed));
}

#[test]
fn pastes_go_to_the_owner_of_the_selection() {
    let browser = SelectionOwner::Browser;
    let x11 = SelectionOwner::X11;
    assert_eq!(x11_paste_route(Some(browser)), PasteRoute::WriteText);
    assert_eq!(x11_paste_route(Some(x11)), PasteRoute::Nothing);
    assert_eq!(x11_paste_route(None), PasteRoute::AskClient);
    assert_eq!(client_paste_route(browser), PasteRoute::WriteText);
    assert_eq!(client_paste_route(x11), PasteRoute::AskX11);
    assert_eq!(read_route(Some(x11)), PasteRoute::AskX11);
    assert_eq!(read_route(None), PasteRoute::AskClient);
    assert!(clears_selection(Some(x11)));
    assert!(!clears_selection(Some(browser)));
}
