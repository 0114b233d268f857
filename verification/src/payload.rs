//! The texts this client puts on the wire: the handshake request and the
//! activity-set command, built byte for byte with exact contracts, and the
//! classification of the acknowledgement that comes back.

use vstd::prelude::*;
use vstd::string::StringSliceAdditionalSpecFns;
use vstd::utf8::encode_utf8;
use crate::frame::{spec_frame, try_encode_frame};
use crate::text::{contains_seq, escape_json, spec_dec, spec_escape, str_contains, u64_dec};
use crate::track::{TrackSnapshot, TrackView};

verus! {

/// Opcode of the handshake request frame.
pub const HANDSHAKE_OPCODE: u32 = 0;

/// Opcode of a command frame and of its acknowledgement.
pub const COMMAND_OPCODE: u32 = 1;

/// The text of an optional field, the empty text when the field is absent.
pub open spec fn text_of(o: Option<Seq<char>>) -> Seq<char> {
    match o {
        Some(s) => s,
        None => Seq::empty(),
    }
}

/// Whether an optional field has any text to show: absent and empty count
/// alike as nothing.
pub open spec fn has_text(o: Option<Seq<char>>) -> bool {
    text_of(o).len() > 0
}

/// A JSON string literal holding the given text, quoted and escaped.
pub open spec fn spec_json_str(raw: Seq<char>) -> Seq<u8> {
    "\"".spec_bytes() + spec_escape(encode_utf8(raw)) + "\"".spec_bytes()
}

/// A JSON string literal for a field with text, the JSON null otherwise.
pub open spec fn spec_json_opt_str(o: Option<Seq<char>>) -> Seq<u8> {
    if has_text(o) {
        spec_json_str(text_of(o))
    } else {
        "null".spec_bytes()
    }
}

/// The handshake request payload: protocol version 1 and the client
/// identifier.
pub open spec fn spec_handshake_payload(client_id: Seq<char>) -> Seq<u8> {
    "{\"v\":1,\"client_id\":\"".spec_bytes() + spec_escape(encode_utf8(client_id))
        + "\"}".spec_bytes()
}

/// The end timestamp of an activity: start plus duration when a duration
/// is present, absent otherwise.
pub open spec fn spec_end(t: TrackView, start: u64) -> Option<u64> {
    match t.duration_sec {
        Some(d) => Some((start + d) as u64),
        None => None,
    }
}

/// The timestamps object of an activity.
pub open spec fn spec_timestamps(start: u64, end: Option<u64>) -> Seq<u8> {
    match end {
        Some(e) => "{\"end\":".spec_bytes() + spec_dec(e as nat) + ",\"start\":".spec_bytes()
            + spec_dec(start as nat) + "}".spec_bytes(),
        None => "{\"start\":".spec_bytes() + spec_dec(start as nat) + "}".spec_bytes(),
    }
}

/// The activity object: timestamps, image assets, details (the title),
/// state ("by <artist>"), the fixed activity type, display name and
/// external-link button. A field with no text becomes the JSON null.
pub open spec fn spec_activity(t: TrackView, start: u64, end: Option<u64>) -> Seq<u8> {
    "{\"assets\":{\"large_image\":".spec_bytes() + spec_json_opt_str(t.album_art)
        + ",\"small_image\":\"ytune\",\"small_text\":\"ytune\"},\"buttons\":[{\"label\":\"ytune\",\"url\":\"https://github.com/yctwhy/ytune\"}],\"details\":".spec_bytes()
        + spec_json_opt_str(t.title) + ",\"name\":\"ytune\",\"state\":".spec_bytes() + (
    if has_text(t.artist) {
        "\"by ".spec_bytes() + spec_escape(encode_utf8(text_of(t.artist))) + "\"".spec_bytes()
    } else {
        "null".spec_bytes()
    }) + ",\"timestamps\":".spec_bytes() + spec_timestamps(start, end) + ",\"type\":2}".spec_bytes()
}

/// The whole activity-set command payload: the activity wrapped with the
/// process identifier and a correlation nonce. The nonce is write-only
/// diagnostic data; no response is ever matched against it.
pub open spec fn spec_command(
    t: TrackView,
    start: u64,
    end: Option<u64>,
    pid: u32,
    nonce: Seq<char>,
) -> Seq<u8> {
    "{\"args\":{\"activity\":".spec_bytes() + spec_activity(t, start, end) + ",\"pid\":".spec_bytes()
        + spec_dec(pid as nat) + "},\"cmd\":\"SET_ACTIVITY\",\"nonce\":".spec_bytes()
        + spec_json_str(nonce) + "}".spec_bytes()
}

/// Build the handshake request payload.
pub fn handshake_payload(client_id: &str) -> (r: Vec<u8>)
    ensures
        r@ == spec_handshake_payload(client_id@),
{
    let mut r: Vec<u8> = Vec::new();
    r.extend_from_slice("{\"v\":1,\"client_id\":\"".as_bytes());
    let mut esc = escape_json(client_id.as_bytes());
    r.append(&mut esc);
    r.extend_from_slice("\"}".as_bytes());
    proof {
        assert(r@ =~= spec_handshake_payload(client_id@));
    }
    r
}

/// Build the whole handshake request frame, opcode 0. Fails only when the
/// payload's byte length does not fit the 32-bit length field.
pub fn handshake_frame(client_id: &str) -> (r: Option<Vec<u8>>)
    ensures
        r is Some <==> spec_handshake_payload(client_id@).len() <= u32::MAX,
        r is Some ==> r.unwrap()@ == spec_frame(
            HANDSHAKE_OPCODE,
            spec_handshake_payload(client_id@),
        ),
{
    let p = handshake_payload(client_id);
    try_encode_frame(HANDSHAKE_OPCODE, p.as_slice())
}

/// The handshake request payload is valid UTF-8 text for any client
/// identifier.
pub proof fn lemma_handshake_payload_is_text(client_id: Seq<char>)
    ensures
        vstd::utf8::valid_utf8(spec_handshake_payload(client_id)),
{
    let l1 = "{\"v\":1,\"client_id\":\"".spec_bytes();
    let e = spec_escape(encode_utf8(client_id));
    let l2 = "\"}".spec_bytes();
    vstd::utf8::encode_utf8_valid_utf8("{\"v\":1,\"client_id\":\""@);
    vstd::utf8::encode_utf8_valid_utf8("\"}"@);
    crate::text::lemma_escaped_text_valid(client_id);
    vstd::utf8::valid_utf8_concat(l1, e);
    vstd::utf8::valid_utf8_concat(l1 + e, l2);
}

/// Append a JSON string literal for the field if it has text, the JSON
/// null otherwise.
fn push_json_opt_str(out: &mut Vec<u8>, o: &Option<String>)
    ensures
        final(out)@ == old(out)@ + spec_json_opt_str(o.deep_view()),
{
    match o {
        Some(s) if !s.as_str().is_empty() => {
            out.extend_from_slice("\"".as_bytes());
            let mut esc = escape_json(s.as_str().as_bytes());
            out.append(&mut esc);
            out.extend_from_slice("\"".as_bytes());
            proof {
                assert(out@ =~= old(out)@ + spec_json_opt_str(o.deep_view()));
            }
        },
        _ => {
            out.extend_from_slice("null".as_bytes());
            proof {
                assert(out@ =~= old(out)@ + spec_json_opt_str(o.deep_view()));
            }
        },
    }
}

/// Build the activity object for a snapshot, with start the current epoch
/// seconds and end derived from the duration when one is present.
#[verifier::rlimit(50)]
pub fn build_activity(t: &TrackSnapshot, start: u64) -> (r: Vec<u8>)
    requires
        t@.duration_sec is Some ==> start + t@.duration_sec.unwrap() <= u64::MAX,
    ensures
        r@ == spec_activity(t@, start, spec_end(t@, start)),
{
    let mut r: Vec<u8> = Vec::new();
    r.extend_from_slice("{\"assets\":{\"large_image\":".as_bytes());
    push_json_opt_str(&mut r, &t.album_art);
    r.extend_from_slice(
        ",\"small_image\":\"ytune\",\"small_text\":\"ytune\"},\"buttons\":[{\"label\":\"ytune\",\"url\":\"https://github.com/yctwhy/ytune\"}],\"details\":".as_bytes(),
    );
    push_json_opt_str(&mut r, &t.title);
    r.extend_from_slice(",\"name\":\"ytune\",\"state\":".as_bytes());
    match &t.artist {
        Some(s) if !s.as_str().is_empty() => {
            r.extend_from_slice("\"by ".as_bytes());
            let mut esc = escape_json(s.as_str().as_bytes());
            r.append(&mut esc);
            r.extend_from_slice("\"".as_bytes());
        },
        _ => {
            r.extend_from_slice("null".as_bytes());
        },
    }
    r.extend_from_slice(",\"timestamps\":".as_bytes());
    match t.duration_sec {
        Some(d) => {
            r.extend_from_slice("{\"end\":".as_bytes());
            let mut num = u64_dec(start + d);
            r.append(&mut num);
            r.extend_from_slice(",\"start\":".as_bytes());
            let mut num2 = u64_dec(start);
            r.append(&mut num2);
            r.extend_from_slice("}".as_bytes());
        },
        None => {
            r.extend_from_slice("{\"start\":".as_bytes());
            let mut num = u64_dec(start);
            r.append(&mut num);
            r.extend_from_slice("}".as_bytes());
        },
    }
    r.extend_from_slice(",\"type\":2}".as_bytes());
    proof {
        assert(r@ =~= spec_activity(t@, start, spec_end(t@, start)));
    }
    r
}

/// Build the whole activity-set command payload for a snapshot.
pub fn build_command(t: &TrackSnapshot, start: u64, pid: u32, nonce: &str) -> (r: Vec<u8>)
    requires
        t@.duration_sec is Some ==> start + t@.duration_sec.unwrap() <= u64::MAX,
    ensures
        r@ == spec_command(t@, start, spec_end(t@, start), pid, nonce@),
{
    let mut r: Vec<u8> = Vec::new();
    r.extend_from_slice("{\"args\":{\"activity\":".as_bytes());
    let mut act = build_activity(t, start);
    r.append(&mut act);
    r.extend_from_slice(",\"pid\":".as_bytes());
    let mut num = u64_dec(pid as u64);
    r.append(&mut num);
    r.extend_from_slice("},\"cmd\":\"SET_ACTIVITY\",\"nonce\":".as_bytes());
    r.extend_from_slice("\"".as_bytes());
    let mut esc = escape_json(nonce.as_bytes());
    r.append(&mut esc);
    r.extend_from_slice("\"".as_bytes());
    r.extend_from_slice("}".as_bytes());
    proof {
        assert(r@ =~= spec_command(t@, start, spec_end(t@, start), pid, nonce@));
    }
    r
}

/// Relies on uuid::Uuid::new_v4 and its hyphenated text form: a freshly
/// generated random identifier. Nothing is promised of its value.
#[verifier::external_body]
fn new_nonce() -> (r: String) {
    uuid::Uuid::new_v4().to_string()
}

/// What became of one report request.
pub enum ReportOutcome {
    /// Both title and artist are empty or absent: nothing meaningful to
    /// show, so no frame is produced.
    Nothing,
    /// The command frame, opcode 1, ready to be written.
    Send(Vec<u8>),
    /// The payload's byte length does not fit the frame's 32-bit length
    /// field; the report is abandoned.
    TooLarge,
}

/// Build the activity-set command frame for a snapshot and a given
/// nonce, or decide that nothing is to be sent: nothing when both title
/// and artist are empty or absent, the frame when the command fits its
/// 32-bit length field, and an abandoned report otherwise.
pub fn prepare_report_with_nonce(t: &TrackSnapshot, start: u64, pid: u32, nonce: &str) -> (r:
    ReportOutcome)
    requires
        t@.duration_sec is Some ==> start + t@.duration_sec.unwrap() <= u64::MAX,
    ensures
        r is Nothing <==> !has_text(t@.title) && !has_text(t@.artist),
        r matches ReportOutcome::Send(f) ==> f@ == spec_frame(
            COMMAND_OPCODE,
            spec_command(t@, start, spec_end(t@, start), pid, nonce@),
        ),
        r is Send <==> (has_text(t@.title) || has_text(t@.artist)) && spec_command(
            t@,
            start,
            spec_end(t@, start),
            pid,
            nonce@,
        ).len() <= u32::MAX,
{
    let title_empty = match &t.title {
        Some(s) => s.as_str().is_empty(),
        None => true,
    };
    let artist_empty = match &t.artist {
        Some(s) => s.as_str().is_empty(),
        None => true,
    };
    if title_empty && artist_empty {
        return ReportOutcome::Nothing;
    }
    let payload = build_command(t, start, pid, nonce);
    match try_encode_frame(COMMAND_OPCODE, payload.as_slice()) {
        Some(f) => ReportOutcome::Send(f),
        None => ReportOutcome::TooLarge,
    }
}

/// Build the activity-set command frame for a snapshot, or decide that
/// nothing is to be sent. A fresh nonce is drawn for each call.
pub fn prepare_report(t: &TrackSnapshot, start: u64, pid: u32) -> (r: ReportOutcome)
    requires
        t@.duration_sec is Some ==> start + t@.duration_sec.unwrap() <= u64::MAX,
    ensures
        r is Nothing <==> !has_text(t@.title) && !has_text(t@.artist),
        r matches ReportOutcome::Send(f) ==> exists|n: Seq<char>|
            f@ == spec_frame(
                COMMAND_OPCODE,
                #[trigger] spec_command(t@, start, spec_end(t@, start), pid, n),
            ),
{
    let nonce = new_nonce();
    let r = prepare_report_with_nonce(t, start, pid, nonce.as_str());
    proof {
        match &r {
            ReportOutcome::Send(f) => {
                assert(f@ == spec_frame(
                    COMMAND_OPCODE,
                    spec_command(t@, start, spec_end(t@, start), pid, nonce@),
                ));
            },
            _ => {},
        }
    }
    r
}

/// A quoted, escaped JSON string literal is valid UTF-8 text.
proof fn lemma_json_str_is_text(raw: Seq<char>)
    ensures
        vstd::utf8::valid_utf8(spec_json_str(raw)),
{
    let q = "\"".spec_bytes();
    let e = spec_escape(encode_utf8(raw));
    vstd::utf8::encode_utf8_valid_utf8("\""@);
    crate::text::lemma_escaped_text_valid(raw);
    vstd::utf8::valid_utf8_concat(q, e);
    vstd::utf8::valid_utf8_concat(q + e, q);
}

/// An optional string field renders to valid UTF-8 text either way.
proof fn lemma_json_opt_str_is_text(o: Option<Seq<char>>)
    ensures
        vstd::utf8::valid_utf8(spec_json_opt_str(o)),
{
    if has_text(o) {
        lemma_json_str_is_text(text_of(o));
    } else {
        vstd::utf8::encode_utf8_valid_utf8("null"@);
    }
}

/// The timestamps object is valid UTF-8 text.
proof fn lemma_timestamps_is_text(start: u64, end: Option<u64>)
    ensures
        vstd::utf8::valid_utf8(spec_timestamps(start, end)),
{
    crate::text::lemma_dec_valid(start as nat);
    match end {
        Some(e) => {
            let l1 = "{\"end\":".spec_bytes();
            let d1 = spec_dec(e as nat);
            let l2 = ",\"start\":".spec_bytes();
            let d2 = spec_dec(start as nat);
            let l3 = "}".spec_bytes();
            vstd::utf8::encode_utf8_valid_utf8("{\"end\":"@);
            vstd::utf8::encode_utf8_valid_utf8(",\"start\":"@);
            vstd::utf8::encode_utf8_valid_utf8("}"@);
            crate::text::lemma_dec_valid(e as nat);
            vstd::utf8::valid_utf8_concat(l1, d1);
            vstd::utf8::valid_utf8_concat(l1 + d1, l2);
            vstd::utf8::valid_utf8_concat(l1 + d1 + l2, d2);
            vstd::utf8::valid_utf8_concat(l1 + d1 + l2 + d2, l3);
        },
        None => {
            let l1 = "{\"start\":".spec_bytes();
            let d1 = spec_dec(start as nat);
            let l2 = "}".spec_bytes();
            vstd::utf8::encode_utf8_valid_utf8("{\"start\":"@);
            vstd::utf8::encode_utf8_valid_utf8("}"@);
            vstd::utf8::valid_utf8_concat(l1, d1);
            vstd::utf8::valid_utf8_concat(l1 + d1, l2);
        },
    }
}

/// The activity object is valid UTF-8 text, whatever the snapshot holds.
pub proof fn lemma_activity_is_text(t: TrackView, start: u64, end: Option<u64>)
    ensures
        vstd::utf8::valid_utf8(spec_activity(t, start, end)),
{
    let l1 = "{\"assets\":{\"large_image\":".spec_bytes();
    let art = spec_json_opt_str(t.album_art);
    let l2 =
        ",\"small_image\":\"ytune\",\"small_text\":\"ytune\"},\"buttons\":[{\"label\":\"ytune\",\"url\":\"https://github.com/yctwhy/ytune\"}],\"details\":".spec_bytes();
    let title = spec_json_opt_str(t.title);
    let l3 = ",\"name\":\"ytune\",\"state\":".spec_bytes();
    let state = if has_text(t.artist) {
        "\"by ".spec_bytes() + spec_escape(encode_utf8(text_of(t.artist))) + "\"".spec_bytes()
    } else {
        "null".spec_bytes()
    };
    let l4 = ",\"timestamps\":".spec_bytes();
    let ts = spec_timestamps(start, end);
    let l5 = ",\"type\":2}".spec_bytes();
    vstd::utf8::encode_utf8_valid_utf8("{\"assets\":{\"large_image\":"@);
    lemma_json_opt_str_is_text(t.album_art);
    vstd::utf8::encode_utf8_valid_utf8(
        ",\"small_image\":\"ytune\",\"small_text\":\"ytune\"},\"buttons\":[{\"label\":\"ytune\",\"url\":\"https://github.com/yctwhy/ytune\"}],\"details\":"@,
    );
    lemma_json_opt_str_is_text(t.title);
    vstd::utf8::encode_utf8_valid_utf8(",\"name\":\"ytune\",\"state\":"@);
    if has_text(t.artist) {
        vstd::utf8::encode_utf8_valid_utf8("\"by "@);
        crate::text::lemma_escaped_text_valid(text_of(t.artist));
        vstd::utf8::encode_utf8_valid_utf8("\""@);
        let e = spec_escape(encode_utf8(text_of(t.artist)));
        vstd::utf8::valid_utf8_concat("\"by ".spec_bytes(), e);
        vstd::utf8::valid_utf8_concat("\"by ".spec_bytes() + e, "\"".spec_bytes());
    } else {
        vstd::utf8::encode_utf8_valid_utf8("null"@);
    }
    vstd::utf8::encode_utf8_valid_utf8(",\"timestamps\":"@);
    lemma_timestamps_is_text(start, end);
    vstd::utf8::encode_utf8_valid_utf8(",\"type\":2}"@);
    vstd::utf8::valid_utf8_concat(l1, art);
    vstd::utf8::valid_utf8_concat(l1 + art, l2);
    vstd::utf8::valid_utf8_concat(l1 + art + l2, title);
    vstd::utf8::valid_utf8_concat(l1 + art + l2 + title, l3);
    vstd::utf8::valid_utf8_concat(l1 + art + l2 + title + l3, state);
    vstd::utf8::valid_utf8_concat(l1 + art + l2 + title + l3 + state, l4);
    vstd::utf8::valid_utf8_concat(l1 + art + l2 + title + l3 + state + l4, ts);
    vstd::utf8::valid_utf8_concat(l1 + art + l2 + title + l3 + state + l4 + ts, l5);
}

/// Every command payload this client writes is valid UTF-8 text, and a
/// frame built from it reads back whole: the header decodes to the
/// command opcode and the payload's exact length, the bytes after the
/// header are the payload, and decoding them as text loses nothing. No
/// report this client writes can come back malformed.
pub proof fn lemma_command_round_trip(
    t: TrackView,
    start: u64,
    end: Option<u64>,
    pid: u32,
    nonce: Seq<char>,
)
    requires
        spec_command(t, start, end, pid, nonce).len() <= u32::MAX,
    ensures
        ({
            let p = spec_command(t, start, end, pid, nonce);
            let f = spec_frame(COMMAND_OPCODE, p);
            &&& vstd::utf8::valid_utf8(p)
            &&& f.len() == 8 + p.len()
            &&& crate::frame::u32_from_le(f.subrange(0, 4)) == COMMAND_OPCODE
            &&& crate::frame::u32_from_le(f.subrange(4, 8)) == p.len()
            &&& f.subrange(8, f.len() as int) == p
            &&& vstd::utf8::encode_utf8(vstd::utf8::decode_utf8(p)) == p
        }),
{
    let p = spec_command(t, start, end, pid, nonce);
    let l1 = "{\"args\":{\"activity\":".spec_bytes();
    let act = spec_activity(t, start, end);
    let l2 = ",\"pid\":".spec_bytes();
    let d = spec_dec(pid as nat);
    let l3 = "},\"cmd\":\"SET_ACTIVITY\",\"nonce\":".spec_bytes();
    let non = spec_json_str(nonce);
    let l4 = "}".spec_bytes();
    vstd::utf8::encode_utf8_valid_utf8("{\"args\":{\"activity\":"@);
    lemma_activity_is_text(t, start, end);
    vstd::utf8::encode_utf8_valid_utf8(",\"pid\":"@);
    crate::text::lemma_dec_valid(pid as nat);
    vstd::utf8::encode_utf8_valid_utf8("},\"cmd\":\"SET_ACTIVITY\",\"nonce\":"@);
    lemma_json_str_is_text(nonce);
    vstd::utf8::encode_utf8_valid_utf8("}"@);
    vstd::utf8::valid_utf8_concat(l1, act);
    vstd::utf8::valid_utf8_concat(l1 + act, l2);
    vstd::utf8::valid_utf8_concat(l1 + act + l2, d);
    vstd::utf8::valid_utf8_concat(l1 + act + l2 + d, l3);
    vstd::utf8::valid_utf8_concat(l1 + act + l2 + d + l3, non);
    vstd::utf8::valid_utf8_concat(l1 + act + l2 + d + l3 + non, l4);
    assert(vstd::utf8::valid_utf8(p));
    crate::frame::lemma_frame_header_round_trip(COMMAND_OPCODE, p);
    vstd::utf8::decode_utf8_encode_utf8(p);
}

/// Whether a response payload announces a protocol-level rejection of the
/// activity command: it names the command and the error event. Such a
/// rejection is logged and the connection stays usable.
pub fn is_activity_error_ack(payload: &str) -> (r: bool)
    ensures
        r == (contains_seq(payload@, "\"cmd\":\"SET_ACTIVITY\""@) && contains_seq(
            payload@,
            "\"evt\":\"ERROR\""@,
        )),
{
    str_contains(payload, "\"cmd\":\"SET_ACTIVITY\"") && str_contains(payload, "\"evt\":\"ERROR\"")
}

} // verus!
