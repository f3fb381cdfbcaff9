//! The canonical JSON wire form of the message protocol. Every message has
//! exactly one encoding: objects are compact (no whitespace), fields come
//! in their documented order, strings escape the quote, the backslash and
//! the three short-escape controls, and levels are rendered as fixed
//! three-decimal fractions of thousandths. The decoder accepts exactly
//! this canonical form; `lemma_server_roundtrip` and
//! `lemma_client_roundtrip` prove that decoding inverts encoding.

use vstd::prelude::*;

use crate::config::{ASRConfig, ASRConfigV};
use crate::protocol::{
    ClientMessage, ClientMessageV, RecordingState, ServerMessage, ServerMessageV, config_wf,
    client_msg_wf, json_char_wf, json_text_wf, server_msg_wf,
};
use crate::session::RecordingMode;
use crate::text::{
    chars_to_string, digit_char, push_str_chars, push_u64_chars, spec_digit_char, spec_u64_chars,
    str_to_chars,
};

verus! {

/// How one character is carried inside a JSON string.
pub open spec fn spec_escape_char(c: char) -> Seq<char> {
    if c == '"' {
        seq!['\\', '"']
    } else if c == '\\' {
        seq!['\\', '\\']
    } else if c == '\n' {
        seq!['\\', 'n']
    } else if c == '\r' {
        seq!['\\', 'r']
    } else if c == '\t' {
        seq!['\\', 't']
    } else {
        seq![c]
    }
}

/// The escaped body of a JSON string carrying the text `t`.
pub open spec fn spec_encode_string_body(t: Seq<char>) -> Seq<char>
    decreases t.len(),
{
    if t.len() == 0 {
        Seq::<char>::empty()
    } else {
        spec_escape_char(t[0]) + spec_encode_string_body(t.drop_first())
    }
}

/// The JSON string carrying the text `t`.
pub open spec fn spec_quoted(t: Seq<char>) -> Seq<char> {
    seq!['"'] + spec_encode_string_body(t) + seq!['"']
}

/// A level in thousandths rendered as a JSON number with three decimals.
pub open spec fn spec_milli_chars(m: u32) -> Seq<char> {
    seq![
        spec_digit_char(m as int / 1000),
        '.',
        spec_digit_char((m as int / 100) % 10),
        spec_digit_char((m as int / 10) % 10),
        spec_digit_char(m as int % 10),
    ]
}

/// The comma-separated items of a waveform array.
pub open spec fn spec_milli_items(ws: Seq<u32>) -> Seq<char>
    decreases ws.len(),
{
    if ws.len() == 0 {
        Seq::<char>::empty()
    } else if ws.len() == 1 {
        spec_milli_chars(ws[0])
    } else {
        spec_milli_chars(ws[0]) + seq![','] + spec_milli_items(ws.drop_first())
    }
}

/// A waveform as a JSON array of three-decimal levels.
pub open spec fn spec_milli_array(ws: Seq<u32>) -> Seq<char> {
    seq!['['] + spec_milli_items(ws) + seq![']']
}

/// A JSON boolean.
pub open spec fn spec_bool_chars(b: bool) -> Seq<char> {
    if b {
        "true"@
    } else {
        "false"@
    }
}

/// The wire name of a recording mode.
pub open spec fn spec_mode_name(m: RecordingMode) -> Seq<char> {
    match m {
        RecordingMode::Press => "press"@,
        RecordingMode::Toggle => "toggle"@,
    }
}

/// The wire name of a recording state.
pub open spec fn spec_state_name(s: RecordingState) -> Seq<char> {
    match s {
        RecordingState::Started => "started"@,
        RecordingState::Stopped => "stopped"@,
        RecordingState::Cancelled => "cancelled"@,
    }
}

/// The canonical JSON object of an engine configuration.
pub open spec fn spec_encode_config(c: ASRConfigV) -> Seq<char> {
    "{\"provider\":"@ + (spec_quoted(c.provider) + (",\"api_key\":"@ + (spec_quoted(c.api_key)
        + (",\"language\":"@ + (spec_quoted(c.language) + "}"@)))))
}

/// The canonical JSON encoding of an inbound command.
pub open spec fn spec_encode_client(m: ClientMessageV) -> Seq<char> {
    match m {
        ClientMessageV::StartRecording { mode, asr_config } => {
            "{\"type\":"@ + (spec_quoted("start_recording"@) + (",\"mode\":"@ + (spec_quoted(
                spec_mode_name(mode),
            ) + (",\"asr_config\":"@ + (spec_encode_config(asr_config) + "}"@)))))
        },
        ClientMessageV::StopRecording => "{\"type\":"@ + (spec_quoted("stop_recording"@)
            + "}"@),
        ClientMessageV::CancelRecording => "{\"type\":"@ + (spec_quoted("cancel_recording"@)
            + "}"@),
        ClientMessageV::UpdateConfig { asr_config } => {
            "{\"type\":"@ + (spec_quoted("update_config"@) + (",\"asr_config\":"@
                + (spec_encode_config(asr_config) + "}"@)))
        },
    }
}

/// The canonical JSON encoding of an outbound event.
pub open spec fn spec_encode_server(m: ServerMessageV) -> Seq<char> {
    match m {
        ServerMessageV::RecordingState { state } => {
            "{\"type\":"@ + (spec_quoted("recording_state"@) + (",\"state\":"@ + (spec_quoted(
                spec_state_name(state),
            ) + "}"@)))
        },
        ServerMessageV::AudioLevel { level, waveform } => {
            "{\"type\":"@ + (spec_quoted("audio_level"@) + (",\"level\":"@ + (spec_milli_chars(
                level,
            ) + (",\"waveform\":"@ + (spec_milli_array(waveform) + "}"@)))))
        },
        ServerMessageV::TranscriptionProgress { partial_text } => {
            "{\"type\":"@ + (spec_quoted("transcription_progress"@) + (",\"partial_text\":"@
                + (spec_quoted(partial_text) + "}"@)))
        },
        ServerMessageV::TranscriptionComplete { text, engine, used_fallback, duration_ms } => {
            "{\"type\":"@ + (spec_quoted("transcription_complete"@) + (",\"text\":"@
                + (spec_quoted(text) + (",\"engine\":"@ + (spec_quoted(engine)
                + (",\"used_fallback\":"@ + (spec_bool_chars(used_fallback)
                + (",\"duration_ms\":"@ + (spec_u64_chars(duration_ms as nat) + "}"@)))))))))
        },
        ServerMessageV::Error { code, message } => {
            "{\"type\":"@ + (spec_quoted("error"@) + (",\"code\":"@ + (spec_quoted(code)
                + (",\"message\":"@ + (spec_quoted(message) + "}"@)))))
        },
    }
}

/// Appending one character to a text appends its escape to the body.
pub proof fn lemma_encode_body_snoc(t: Seq<char>, c: char)
    ensures
        spec_encode_string_body(t.push(c)) == spec_encode_string_body(t) + spec_escape_char(c),
    decreases t.len(),
{
    if t.len() == 0 {
        assert(t.push(c)[0] == c);
        assert(t.push(c).drop_first() =~= Seq::<char>::empty());
        assert(spec_encode_string_body(t.push(c).drop_first()) == Seq::<char>::empty());
        assert(spec_encode_string_body(t.push(c)) =~= spec_encode_string_body(t)
            + spec_escape_char(c));
    } else {
        assert(t.push(c)[0] == t[0]);
        assert(t.push(c).drop_first() =~= t.drop_first().push(c));
        lemma_encode_body_snoc(t.drop_first(), c);
        assert(spec_encode_string_body(t.push(c)) == spec_escape_char(t[0])
            + spec_encode_string_body(t.drop_first().push(c)));
        assert(spec_encode_string_body(t.push(c)) =~= spec_encode_string_body(t)
            + spec_escape_char(c));
    }
}

/// Appending one level to a non-empty waveform appends a comma and its
/// rendering to the items.
pub proof fn lemma_milli_items_snoc(ws: Seq<u32>, w: u32)
    ensures
        ws.len() == 0 ==> spec_milli_items(ws.push(w)) == spec_milli_chars(w),
        ws.len() > 0 ==> spec_milli_items(ws.push(w)) == spec_milli_items(ws) + seq![',']
            + spec_milli_chars(w),
    decreases ws.len(),
{
    if ws.len() == 0 {
        assert(ws.push(w)[0] == w);
        assert(ws.push(w).len() == 1);
    } else if ws.len() == 1 {
        assert(ws.push(w)[0] == ws[0]);
        assert(ws.push(w).drop_first() =~= ws.drop_first().push(w));
        assert(ws.drop_first().len() == 0);
        assert(spec_milli_items(ws.drop_first().push(w)) == spec_milli_chars(w)) by {
            lemma_milli_items_snoc(ws.drop_first(), w);
        }
        assert(spec_milli_items(ws.push(w)) =~= spec_milli_items(ws) + seq![',']
            + spec_milli_chars(w));
    } else {
        assert(ws.push(w)[0] == ws[0]);
        assert(ws.push(w).drop_first() =~= ws.drop_first().push(w));
        lemma_milli_items_snoc(ws.drop_first(), w);
        assert(spec_milli_items(ws.push(w)) =~= spec_milli_items(ws) + seq![',']
            + spec_milli_chars(w));
    }
}

/// Appends the escape of one character.
fn push_escaped_char(out: &mut Vec<char>, c: char)
    ensures
        final(out)@ == old(out)@ + spec_escape_char(c),
{
    if c == '"' {
        out.push('\\');
        out.push('"');
    } else if c == '\\' {
        out.push('\\');
        out.push('\\');
    } else if c == '\n' {
        out.push('\\');
        out.push('n');
    } else if c == '\r' {
        out.push('\\');
        out.push('r');
    } else if c == '\t' {
        out.push('\\');
        out.push('t');
    } else {
        out.push(c);
    }
    proof {
        assert(out@ =~= old(out)@ + spec_escape_char(c));
    }
}

/// Appends the JSON string carrying `s`.
fn push_quoted(out: &mut Vec<char>, s: &str)
    ensures
        final(out)@ == old(out)@ + spec_quoted(s@),
{
    out.push('"');
    let n: usize = vstd::string::StrSliceExecFns::unicode_len(s);
    let mut i: usize = 0;
    while i < n
        invariant
            n == s@.len(),
            i <= n,
            out@ == old(out)@ + seq!['"'] + spec_encode_string_body(s@.take(i as int)),
        decreases n - i,
    {
        let c = vstd::string::StrSliceExecFns::get_char(s, i);
        push_escaped_char(out, c);
        proof {
            assert(s@.take(i + 1 as int).drop_last() =~= s@.take(i as int));
            assert(s@.take(i + 1 as int) =~= s@.take(i as int).push(s@[i as int]));
            lemma_encode_body_snoc(s@.take(i as int), s@[i as int]);
            assert(out@ =~= old(out)@ + seq!['"'] + spec_encode_string_body(
                s@.take(i + 1 as int),
            ));
        }
        i = i + 1;
    }
    out.push('"');
    proof {
        assert(s@.take(n as int) =~= s@);
        assert(out@ =~= old(out)@ + spec_quoted(s@));
    }
}

/// Appends a level as a three-decimal JSON number.
fn push_milli(out: &mut Vec<char>, m: u32)
    requires
        m <= 1000,
    ensures
        final(out)@ == old(out)@ + spec_milli_chars(m),
{
    out.push(digit_char((m / 1000) as u8));
    out.push('.');
    out.push(digit_char(((m / 100) % 10) as u8));
    out.push(digit_char(((m / 10) % 10) as u8));
    out.push(digit_char((m % 10) as u8));
    proof {
        assert(out@ =~= old(out)@ + spec_milli_chars(m));
    }
}

/// Appends a waveform as a JSON array of three-decimal levels.
fn push_milli_array(out: &mut Vec<char>, ws: &Vec<u32>)
    requires
        crate::audio::waveform_levels_wf(ws@),
    ensures
        final(out)@ == old(out)@ + spec_milli_array(ws@),
{
    out.push('[');
    let n = ws.len();
    let mut i: usize = 0;
    while i < n
        invariant
            n == ws@.len(),
            i <= n,
            crate::audio::waveform_levels_wf(ws@),
            out@ == old(out)@ + seq!['['] + spec_milli_items(ws@.take(i as int)),
        decreases n - i,
    {
        if i > 0 {
            out.push(',');
        }
        push_milli(out, ws[i]);
        proof {
            assert(ws@.take(i + 1 as int) =~= ws@.take(i as int).push(ws@[i as int]));
            lemma_milli_items_snoc(ws@.take(i as int), ws@[i as int]);
            assert(out@ =~= old(out)@ + seq!['['] + spec_milli_items(ws@.take(i + 1 as int)));
        }
        i = i + 1;
    }
    out.push(']');
    proof {
        assert(ws@.take(n as int) =~= ws@);
        assert(out@ =~= old(out)@ + spec_milli_array(ws@));
    }
}

/// Appends a JSON boolean.
fn push_bool(out: &mut Vec<char>, b: bool)
    ensures
        final(out)@ == old(out)@ + spec_bool_chars(b),
{
    if b {
        push_str_chars(out, "true");
    } else {
        push_str_chars(out, "false");
    }
}

/// Appends the canonical JSON object of a configuration.
fn push_config(out: &mut Vec<char>, c: &ASRConfig)
    ensures
        final(out)@ == old(out)@ + spec_encode_config(c@),
{
    push_str_chars(out, "{\"provider\":");
    push_quoted(out, c.provider.as_str());
    push_str_chars(out, ",\"api_key\":");
    push_quoted(out, c.api_key.as_str());
    push_str_chars(out, ",\"language\":");
    push_quoted(out, c.language.as_str());
    push_str_chars(out, "}");
    proof {
        assert(out@ =~= old(out)@ + spec_encode_config(c@));
    }
}

/// The wire name of a recording mode.
pub fn mode_name(m: RecordingMode) -> (r: &'static str)
    ensures
        r@ == spec_mode_name(m),
{
    match m {
        RecordingMode::Press => "press",
        RecordingMode::Toggle => "toggle",
    }
}

/// The wire name of a recording state.
pub fn state_name(s: RecordingState) -> (r: &'static str)
    ensures
        r@ == spec_state_name(s),
{
    match s {
        RecordingState::Started => "started",
        RecordingState::Stopped => "stopped",
        RecordingState::Cancelled => "cancelled",
    }
}

/// Serializes an inbound command to its canonical JSON text.
pub fn encode_client_message(m: &ClientMessage) -> (s: String)
    ensures
        s@ == spec_encode_client(m@),
{
    let mut out: Vec<char> = Vec::new();
    match m {
        ClientMessage::StartRecording { mode, asr_config } => {
            push_str_chars(&mut out, "{\"type\":");
            push_quoted(&mut out, "start_recording");
            push_str_chars(&mut out, ",\"mode\":");
            push_quoted(&mut out, mode_name(*mode));
            push_str_chars(&mut out, ",\"asr_config\":");
            push_config(&mut out, asr_config);
            push_str_chars(&mut out, "}");
            proof {
                assert(out@ =~= spec_encode_client(m@));
            }
        },
        ClientMessage::StopRecording => {
            push_str_chars(&mut out, "{\"type\":");
            push_quoted(&mut out, "stop_recording");
            push_str_chars(&mut out, "}");
            proof {
                assert(out@ =~= spec_encode_client(m@));
            }
        },
        ClientMessage::CancelRecording => {
            push_str_chars(&mut out, "{\"type\":");
            push_quoted(&mut out, "cancel_recording");
            push_str_chars(&mut out, "}");
            proof {
                assert(out@ =~= spec_encode_client(m@));
            }
        },
        ClientMessage::UpdateConfig { asr_config } => {
            push_str_chars(&mut out, "{\"type\":");
            push_quoted(&mut out, "update_config");
            push_str_chars(&mut out, ",\"asr_config\":");
            push_config(&mut out, asr_config);
            push_str_chars(&mut out, "}");
            proof {
                assert(out@ =~= spec_encode_client(m@));
            }
        },
    }
    chars_to_string(&out)
}

/// Serializes an outbound event to its canonical JSON text.
#[verifier::rlimit(100)]
#[verifier::spinoff_prover]
pub fn encode_server_message(m: &ServerMessage) -> (s: String)
    requires
        server_msg_wf(m@),
    ensures
        s@ == spec_encode_server(m@),
{
    let mut out: Vec<char> = Vec::new();
    match m {
        ServerMessage::RecordingState { state } => {
            push_str_chars(&mut out, "{\"type\":");
            push_quoted(&mut out, "recording_state");
            push_str_chars(&mut out, ",\"state\":");
            push_quoted(&mut out, state_name(*state));
            push_str_chars(&mut out, "}");
            proof {
                assert(out@ =~= spec_encode_server(m@));
            }
        },
        ServerMessage::AudioLevel { level, waveform } => {
            proof {
                assert(m@ == (ServerMessageV::AudioLevel { level: *level, waveform: waveform@ }));
            }
            push_str_chars(&mut out, "{\"type\":");
            push_quoted(&mut out, "audio_level");
            push_str_chars(&mut out, ",\"level\":");
            push_milli(&mut out, *level);
            push_str_chars(&mut out, ",\"waveform\":");
            push_milli_array(&mut out, waveform);
            push_str_chars(&mut out, "}");
            proof {
                assert(out@ =~= spec_encode_server(m@));
            }
        },
        ServerMessage::TranscriptionProgress { partial_text } => {
            push_str_chars(&mut out, "{\"type\":");
            push_quoted(&mut out, "transcription_progress");
            push_str_chars(&mut out, ",\"partial_text\":");
            push_quoted(&mut out, partial_text.as_str());
            push_str_chars(&mut out, "}");
            proof {
                assert(out@ =~= spec_encode_server(m@));
            }
        },
        ServerMessage::TranscriptionComplete { text, engine, used_fallback, duration_ms } => {
            push_str_chars(&mut out, "{\"type\":");
            push_quoted(&mut out, "transcription_complete");
            push_str_chars(&mut out, ",\"text\":");
            push_quoted(&mut out, text.as_str());
            push_str_chars(&mut out, ",\"engine\":");
            push_quoted(&mut out, engine.as_str());
            push_str_chars(&mut out, ",\"used_fallback\":");
            push_bool(&mut out, *used_fallback);
            push_str_chars(&mut out, ",\"duration_ms\":");
            push_u64_chars(&mut out, *duration_ms);
            push_str_chars(&mut out, "}");
            proof {
                assert(out@ =~= spec_encode_server(m@));
            }
        },
        ServerMessage::Error { code, message } => {
            push_str_chars(&mut out, "{\"type\":");
            push_quoted(&mut out, "error");
            push_str_chars(&mut out, ",\"code\":");
            push_quoted(&mut out, code.as_str());
            push_str_chars(&mut out, ",\"message\":");
            push_quoted(&mut out, message.as_str());
            push_str_chars(&mut out, "}");
            proof {
                assert(out@ =~= spec_encode_server(m@));
            }
        },
    }
    chars_to_string(&out)
}

/// Parses an expected literal prefix off the input.
pub open spec fn spec_parse_lit(s: Seq<char>, l: Seq<char>) -> Option<Seq<char>> {
    if l.len() <= s.len() && s.take(l.len() as int) == l {
        Some(s.skip(l.len() as int))
    } else {
        None
    }
}

/// The character named by a short escape.
pub open spec fn spec_unescape_char(c: char) -> Option<char> {
    if c == '"' {
        Some('"')
    } else if c == '\\' {
        Some('\\')
    } else if c == 'n' {
        Some('\n')
    } else if c == 'r' {
        Some('\r')
    } else if c == 't' {
        Some('\t')
    } else {
        None
    }
}

/// Parses the body of a JSON string up to and including its closing quote,
/// returning the carried text and the rest of the input.
pub open spec fn spec_parse_string_body(s: Seq<char>) -> Option<(Seq<char>, Seq<char>)>
    decreases s.len(),
{
    if s.len() == 0 {
        None
    } else if s[0] == '"' {
        Some((Seq::<char>::empty(), s.drop_first()))
    } else if s[0] == '\\' {
        if s.len() < 2 {
            None
        } else {
            match spec_unescape_char(s[1]) {
                None => None,
                Some(c) => match spec_parse_string_body(s.skip(2)) {
                    None => None,
                    Some((t, rest)) => Some((seq![c] + t, rest)),
                },
            }
        }
    } else if json_char_wf(s[0]) {
        match spec_parse_string_body(s.drop_first()) {
            None => None,
            Some((t, rest)) => Some((seq![s[0]] + t, rest)),
        }
    } else {
        None
    }
}

/// Parses a complete JSON string, opening quote included.
pub open spec fn spec_parse_string(s: Seq<char>) -> Option<(Seq<char>, Seq<char>)> {
    if s.len() >= 1 && s[0] == '"' {
        spec_parse_string_body(s.drop_first())
    } else {
        None
    }
}

/// The digit value of a character, if it is one.
pub open spec fn spec_char_digit(c: char) -> Option<u8> {
    if c == '0' {
        Some(0)
    } else if c == '1' {
        Some(1)
    } else if c == '2' {
        Some(2)
    } else if c == '3' {
        Some(3)
    } else if c == '4' {
        Some(4)
    } else if c == '5' {
        Some(5)
    } else if c == '6' {
        Some(6)
    } else if c == '7' {
        Some(7)
    } else if c == '8' {
        Some(8)
    } else if c == '9' {
        Some(9)
    } else {
        None
    }
}

/// Whether a character is a decimal digit.
pub open spec fn spec_is_digit(c: char) -> bool {
    spec_char_digit(c) is Some
}

/// The length of the input's leading run of digits.
pub open spec fn spec_digit_prefix_len(s: Seq<char>) -> nat
    decreases s.len(),
{
    if s.len() == 0 || !spec_is_digit(s[0]) {
        0
    } else {
        1 + spec_digit_prefix_len(s.drop_first())
    }
}

/// The value of a sequence of digit characters, most significant first.
pub open spec fn spec_digits_val(d: Seq<char>) -> nat
    decreases d.len(),
{
    if d.len() == 0 {
        0
    } else {
        spec_digits_val(d.drop_last()) * 10 + (match spec_char_digit(d.last()) {
            Some(v) => v as nat,
            None => 0,
        })
    }
}

/// Parses a canonical unsigned decimal: at least one digit, no leading
/// zero, value within 64 bits.
pub open spec fn spec_parse_u64(s: Seq<char>) -> Option<(u64, Seq<char>)> {
    let k = spec_digit_prefix_len(s);
    if k == 0 {
        None
    } else if s[0] == '0' && k > 1 {
        None
    } else {
        let v = spec_digits_val(s.take(k as int));
        if v > u64::MAX {
            None
        } else {
            Some((v as u64, s.skip(k as int)))
        }
    }
}

/// Parses a three-decimal level, rejecting values above one.
pub open spec fn spec_parse_milli(s: Seq<char>) -> Option<(u32, Seq<char>)> {
    if s.len() >= 5 && spec_is_digit(s[0]) && s[1] == '.' && spec_is_digit(s[2]) && spec_is_digit(
        s[3],
    ) && spec_is_digit(s[4]) {
        let v = (spec_char_digit(s[0])->0 as int) * 1000 + (spec_char_digit(s[2])->0 as int) * 100
            + (spec_char_digit(s[3])->0 as int) * 10 + (spec_char_digit(s[4])->0 as int);
        if v <= 1000 {
            Some((v as u32, s.skip(5)))
        } else {
            None
        }
    } else {
        None
    }
}

/// Parses the non-empty items of a level array, up to and including the
/// closing bracket.
pub open spec fn spec_parse_milli_items(s: Seq<char>) -> Option<(Seq<u32>, Seq<char>)>
    decreases s.len(),
{
    match spec_parse_milli(s) {
        None => None,
        Some((m, r)) => {
            if r.len() >= 1 && r[0] == ',' {
                match spec_parse_milli_items(r.drop_first()) {
                    None => None,
                    Some((ms, r2)) => Some((seq![m] + ms, r2)),
                }
            } else if r.len() >= 1 && r[0] == ']' {
                Some((seq![m], r.drop_first()))
            } else {
                None
            }
        },
    }
}

/// Parses a level array, brackets included.
pub open spec fn spec_parse_milli_array(s: Seq<char>) -> Option<(Seq<u32>, Seq<char>)> {
    if s.len() >= 2 && s[0] == '[' && s[1] == ']' {
        Some((Seq::<u32>::empty(), s.skip(2)))
    } else if s.len() >= 1 && s[0] == '[' {
        spec_parse_milli_items(s.drop_first())
    } else {
        None
    }
}

/// Parses a JSON boolean.
pub open spec fn spec_parse_bool(s: Seq<char>) -> Option<(bool, Seq<char>)> {
    match spec_parse_lit(s, "true"@) {
        Some(r) => Some((true, r)),
        None => match spec_parse_lit(s, "false"@) {
            Some(r) => Some((false, r)),
            None => None,
        },
    }
}

/// A literal prefix parses off exactly, leaving the rest.
pub proof fn lemma_parse_lit_of_prefix(l: Seq<char>, rest: Seq<char>)
    ensures
        spec_parse_lit(l + rest, l) == Some(rest),
{
    assert((l + rest).take(l.len() as int) =~= l);
    assert((l + rest).skip(l.len() as int) =~= rest);
}

/// Parsing inverts escaping: the encoded body of a representable text,
/// followed by the closing quote, parses back to that text.
pub proof fn lemma_parse_body_of_encoded(t: Seq<char>, rest: Seq<char>)
    requires
        json_text_wf(t),
    ensures
        spec_parse_string_body(spec_encode_string_body(t) + seq!['"'] + rest) == Some((t, rest)),
    decreases t.len(),
{
    let s = spec_encode_string_body(t) + seq!['"'] + rest;
    if t.len() == 0 {
        assert(spec_encode_string_body(t) =~= Seq::<char>::empty());
        assert(s =~= seq!['"'] + rest);
        assert(s[0] == '"');
        assert(s.drop_first() =~= rest);
    } else {
        let c = t[0];
        let t2 = t.drop_first();
        assert(json_char_wf(c));
        assert(json_text_wf(t2)) by {
            assert(forall|i: int| 0 <= i < t2.len() ==> t2[i] == t[i + 1]);
        }
        lemma_parse_body_of_encoded(t2, rest);
        let tail = spec_encode_string_body(t2) + seq!['"'] + rest;
        assert(s =~= spec_escape_char(c) + tail);
        if c == '"' || c == '\\' || c == '\n' || c == '\r' || c == '\t' {
            assert(s[0] == '\\');
            assert(spec_unescape_char(s[1]) == Some(c));
            assert(s.skip(2) =~= tail);
            assert(seq![c] + t2 =~= t);
        } else {
            assert(s[0] == c);
            assert(s.drop_first() =~= tail);
            assert(seq![c] + t2 =~= t);
        }
    }
}

/// A quoted representable text, followed by anything, parses back exactly.
pub proof fn lemma_parse_string_of_quoted(t: Seq<char>, rest: Seq<char>)
    requires
        json_text_wf(t),
    ensures
        spec_parse_string(spec_quoted(t) + rest) == Some((t, rest)),
{
    let s = spec_quoted(t) + rest;
    assert(s[0] == '"');
    assert(s.drop_first() =~= spec_encode_string_body(t) + seq!['"'] + rest);
    lemma_parse_body_of_encoded(t, rest);
}

/// A digit character evaluates back to its digit.
pub proof fn lemma_char_digit_of_digit(v: int)
    requires
        0 <= v < 10,
    ensures
        spec_char_digit(spec_digit_char(v)) == Some(v as u8),
        spec_is_digit(spec_digit_char(v)),
{
}

/// The numeral of `n` is a non-empty run of digits, has no leading zero
/// unless it is "0", and evaluates back to `n`.
pub proof fn lemma_u64_chars_canonical(n: nat)
    ensures
        spec_u64_chars(n).len() >= 1,
        forall|i: int| 0 <= i < spec_u64_chars(n).len() ==> spec_is_digit(#[trigger] spec_u64_chars(
            n,
        )[i]),
        n >= 1 ==> spec_u64_chars(n)[0] != '0',
        spec_digits_val(spec_u64_chars(n)) == n,
    decreases n,
{
    if n < 10 {
        let d = spec_u64_chars(n);
        lemma_char_digit_of_digit(n as int);
        assert(d =~= seq![spec_digit_char(n as int)]);
        assert(d.last() == spec_digit_char(n as int));
        assert(d.drop_last() =~= Seq::<char>::empty());
        assert(spec_digits_val(d.drop_last()) == 0);
        assert(spec_digits_val(d) == n);
    } else {
        lemma_u64_chars_canonical(n / 10);
        let p = spec_u64_chars(n / 10);
        let d = spec_u64_chars(n);
        lemma_char_digit_of_digit((n % 10) as int);
        assert(d == p + seq![spec_digit_char((n % 10) as int)]);
        assert(d.drop_last() =~= p);
        assert(d.last() == spec_digit_char((n % 10) as int));
        assert(d.len() == p.len() + 1);
        assert(spec_digits_val(d) == spec_digits_val(d.drop_last()) * 10 + (
        match spec_char_digit(d.last()) {
            Some(v) => v as nat,
            None => 0,
        }));
        assert(spec_digits_val(d.drop_last()) == spec_digits_val(p));
        assert((match spec_char_digit(d.last()) {
            Some(v) => v as nat,
            None => 0,
        }) == n % 10);
        assert(spec_digits_val(d) == spec_digits_val(p) * 10 + n % 10);
        vstd::arithmetic::div_mod::lemma_fundamental_div_mod(n as int, 10);
        assert(spec_digits_val(d) == n);
        assert(d[0] == p[0]);
        assert(forall|i: int| 0 <= i < d.len() ==> spec_is_digit(#[trigger] d[i])) by {
            assert(forall|i: int| 0 <= i < p.len() ==> d[i] == p[i]);
        }
    }
}

/// The digit prefix of a digit run followed by a non-digit is the run.
pub proof fn lemma_digit_prefix_of_concat(a: Seq<char>, b: Seq<char>)
    requires
        forall|i: int| 0 <= i < a.len() ==> spec_is_digit(#[trigger] a[i]),
        b.len() == 0 || !spec_is_digit(b[0]),
    ensures
        spec_digit_prefix_len(a + b) == a.len(),
    decreases a.len(),
{
    if a.len() == 0 {
        assert(a + b =~= b);
    } else {
        assert((a + b)[0] == a[0]);
        assert((a + b).drop_first() =~= a.drop_first() + b);
        assert(forall|i: int| 0 <= i < a.drop_first().len() ==> spec_is_digit(
            #[trigger] a.drop_first()[i],
        )) by {
            assert(forall|i: int| 0 <= i < a.drop_first().len() ==> a.drop_first()[i] == a[i + 1]);
        }
        lemma_digit_prefix_of_concat(a.drop_first(), b);
    }
}

/// The canonical numeral of `n`, followed by anything that does not start
/// with a digit, parses back to exactly `n`.
pub proof fn lemma_parse_u64_of_encoded(n: u64, rest: Seq<char>)
    requires
        rest.len() == 0 || !spec_is_digit(rest[0]),
    ensures
        spec_parse_u64(spec_u64_chars(n as nat) + rest) == Some((n, rest)),
{
    let d = spec_u64_chars(n as nat);
    let s = d + rest;
    lemma_u64_chars_canonical(n as nat);
    lemma_digit_prefix_of_concat(d, rest);
    let k = spec_digit_prefix_len(s);
    assert(k == d.len());
    assert(s.take(k as int) =~= d);
    assert(s.skip(k as int) =~= rest);
    assert(s[0] == d[0]);
    if n == 0 {
        assert(d =~= seq![spec_digit_char(0)]);
        assert(k == 1);
    } else {
        assert(s[0] != '0');
    }
    assert(spec_digits_val(d) == n as nat);
}

/// A level's three-decimal rendering, followed by anything, parses back to
/// exactly that level.
pub proof fn lemma_parse_milli_of_encoded(m: u32, rest: Seq<char>)
    requires
        m <= 1000,
    ensures
        spec_parse_milli(spec_milli_chars(m) + rest) == Some((m, rest)),
{
    let e = spec_milli_chars(m);
    let s = e + rest;
    assert(s.len() >= 5);
    assert(s[0] == spec_digit_char(m as int / 1000));
    assert(s[1] == '.');
    assert(s[2] == spec_digit_char((m as int / 100) % 10));
    assert(s[3] == spec_digit_char((m as int / 10) % 10));
    assert(s[4] == spec_digit_char(m as int % 10));
    assert(s.skip(5) =~= rest);
    let x = m as int;
    vstd::arithmetic::div_mod::lemma_fundamental_div_mod(x, 100);
    vstd::arithmetic::div_mod::lemma_breakdown(x, 10, 10);
    if m == 1000 {
        assert((spec_char_digit(s[0])->0 as int) * 1000 + (spec_char_digit(s[2])->0 as int) * 100
            + (spec_char_digit(s[3])->0 as int) * 10 + (spec_char_digit(s[4])->0 as int) == x);
    } else {
        assert(x / 1000 == 0);
        assert(x / 100 < 10);
        assert((x / 100) % 10 == x / 100);
        assert(100 * (x / 100) + 10 * ((x / 10) % 10) + x % 10 == x);
        assert((spec_char_digit(s[0])->0 as int) * 1000 + (spec_char_digit(s[2])->0 as int) * 100
            + (spec_char_digit(s[3])->0 as int) * 10 + (spec_char_digit(s[4])->0 as int) == x);
    }
}

/// The items of a non-empty well-formed waveform, followed by the closing
/// bracket, parse back exactly.
pub proof fn lemma_parse_items_of_encoded(ws: Seq<u32>, rest: Seq<char>)
    requires
        ws.len() >= 1,
        crate::audio::waveform_levels_wf(ws),
    ensures
        spec_parse_milli_items(spec_milli_items(ws) + seq![']'] + rest) == Some((ws, rest)),
    decreases ws.len(),
{
    let s = spec_milli_items(ws) + seq![']'] + rest;
    if ws.len() == 1 {
        assert(s =~= spec_milli_chars(ws[0]) + (seq![']'] + rest));
        lemma_parse_milli_of_encoded(ws[0], seq![']'] + rest);
        let r = (seq![']'] + rest);
        assert(r[0] == ']');
        assert(r.drop_first() =~= rest);
        assert(seq![ws[0]] =~= ws);
    } else {
        let tail = seq![','] + spec_milli_items(ws.drop_first()) + seq![']'] + rest;
        assert(s =~= spec_milli_chars(ws[0]) + tail);
        lemma_parse_milli_of_encoded(ws[0], tail);
        assert(tail[0] == ',');
        assert(tail.drop_first() =~= spec_milli_items(ws.drop_first()) + seq![']'] + rest);
        assert(crate::audio::waveform_levels_wf(ws.drop_first())) by {
            assert(forall|i: int| 0 <= i < ws.drop_first().len() ==> ws.drop_first()[i] == ws[i
                + 1]);
        }
        lemma_parse_items_of_encoded(ws.drop_first(), rest);
        assert(seq![ws[0]] + ws.drop_first() =~= ws);
    }
}

/// A well-formed waveform's array rendering, followed by anything, parses
/// back exactly.
pub proof fn lemma_parse_milli_array_of_encoded(ws: Seq<u32>, rest: Seq<char>)
    requires
        crate::audio::waveform_levels_wf(ws),
    ensures
        spec_parse_milli_array(spec_milli_array(ws) + rest) == Some((ws, rest)),
{
    let s = spec_milli_array(ws) + rest;
    assert(s[0] == '[');
    if ws.len() == 0 {
        assert(s =~= seq!['[', ']'] + rest);
        assert(s[1] == ']');
        assert(s.skip(2) =~= rest);
        assert(Seq::<u32>::empty() =~= ws);
    } else {
        assert(s.drop_first() =~= spec_milli_items(ws) + seq![']'] + rest);
        assert(s[1] == (spec_milli_items(ws) + seq![']'] + rest)[0]);
        assert(s[1] == spec_milli_chars(ws[0])[0]);
        assert(spec_is_digit(s[1]));
        assert(s[1] != ']');
        lemma_parse_items_of_encoded(ws, rest);
    }
}

/// A boolean's rendering, followed by anything, parses back exactly.
pub proof fn lemma_parse_bool_of_encoded(b: bool, rest: Seq<char>)
    ensures
        spec_parse_bool(spec_bool_chars(b) + rest) == Some((b, rest)),
{
    reveal_strlit("true");
    reveal_strlit("false");
    if b {
        lemma_parse_lit_of_prefix("true"@, rest);
    } else {
        lemma_parse_lit_of_prefix("false"@, rest);
        let s = "false"@ + rest;
        assert(s[0] == 'f');
        assert(spec_parse_lit(s, "true"@) is None) by {
            if spec_parse_lit(s, "true"@) is Some {
                assert(s.take(4)[0] == 't');
            }
        }
    }
}

/// The recording state named on the wire, if any.
pub open spec fn spec_state_of_name(n: Seq<char>) -> Option<RecordingState> {
    if n == "started"@ {
        Some(RecordingState::Started)
    } else if n == "stopped"@ {
        Some(RecordingState::Stopped)
    } else if n == "cancelled"@ {
        Some(RecordingState::Cancelled)
    } else {
        None
    }
}

/// The recording mode named on the wire, if any.
pub open spec fn spec_mode_of_name(n: Seq<char>) -> Option<RecordingMode> {
    if n == "press"@ {
        Some(RecordingMode::Press)
    } else if n == "toggle"@ {
        Some(RecordingMode::Toggle)
    } else {
        None
    }
}

/// Parses a canonical configuration object.
pub open spec fn spec_parse_config(s: Seq<char>) -> Option<(ASRConfigV, Seq<char>)> {
    match spec_parse_lit(s, "{\"provider\":"@) {
        None => None,
        Some(s1) => match spec_parse_string(s1) {
            None => None,
            Some((provider, s2)) => match spec_parse_lit(s2, ",\"api_key\":"@) {
                None => None,
                Some(s3) => match spec_parse_string(s3) {
                    None => None,
                    Some((api_key, s4)) => match spec_parse_lit(s4, ",\"language\":"@) {
                        None => None,
                        Some(s5) => match spec_parse_string(s5) {
                            None => None,
                            Some((language, s6)) => match spec_parse_lit(s6, "}"@) {
                                None => None,
                                Some(s7) => Some(
                                    (ASRConfigV { provider, api_key, language }, s7),
                                ),
                            },
                        },
                    },
                },
            },
        },
    }
}

/// Decodes the canonical form of an outbound event: exactly the strings
/// that `spec_encode_server` produces.
pub open spec fn spec_decode_server(s: Seq<char>) -> Option<ServerMessageV> {
    match spec_parse_lit(s, "{\"type\":"@) {
        None => None,
        Some(s0) => match spec_parse_string(s0) {
            None => None,
            Some((name, s1)) => {
                if name == "recording_state"@ {
                    match spec_parse_lit(s1, ",\"state\":"@) {
                        None => None,
                        Some(s2) => match spec_parse_string(s2) {
                            None => None,
                            Some((sname, s3)) => match spec_state_of_name(sname) {
                                None => None,
                                Some(st) => match spec_parse_lit(s3, "}"@) {
                                    None => None,
                                    Some(s4) => if s4.len() == 0 {
                                        Some(ServerMessageV::RecordingState { state: st })
                                    } else {
                                        None
                                    },
                                },
                            },
                        },
                    }
                } else if name == "audio_level"@ {
                    match spec_parse_lit(s1, ",\"level\":"@) {
                        None => None,
                        Some(s2) => match spec_parse_milli(s2) {
                            None => None,
                            Some((level, s3)) => match spec_parse_lit(s3, ",\"waveform\":"@) {
                                None => None,
                                Some(s4) => match spec_parse_milli_array(s4) {
                                    None => None,
                                    Some((waveform, s5)) => match spec_parse_lit(s5, "}"@) {
                                        None => None,
                                        Some(s6) => if s6.len() == 0 {
                                            Some(ServerMessageV::AudioLevel { level, waveform })
                                        } else {
                                            None
                                        },
                                    },
                                },
                            },
                        },
                    }
                } else if name == "transcription_progress"@ {
                    match spec_parse_lit(s1, ",\"partial_text\":"@) {
                        None => None,
                        Some(s2) => match spec_parse_string(s2) {
                            None => None,
                            Some((partial_text, s3)) => match spec_parse_lit(s3, "}"@) {
                                None => None,
                                Some(s4) => if s4.len() == 0 {
                                    Some(ServerMessageV::TranscriptionProgress { partial_text })
                                } else {
                                    None
                                },
                            },
                        },
                    }
                } else if name == "transcription_complete"@ {
                    match spec_parse_lit(s1, ",\"text\":"@) {
                        None => None,
                        Some(s2) => match spec_parse_string(s2) {
                            None => None,
                            Some((text, s3)) => match spec_parse_lit(s3, ",\"engine\":"@) {
                                None => None,
                                Some(s4) => match spec_parse_string(s4) {
                                    None => None,
                                    Some((engine, s5)) => match spec_parse_lit(
                                        s5,
                                        ",\"used_fallback\":"@,
                                    ) {
                                        None => None,
                                        Some(s6) => match spec_parse_bool(s6) {
                                            None => None,
                                            Some((used_fallback, s7)) => match spec_parse_lit(
                                                s7,
                                                ",\"duration_ms\":"@,
                                            ) {
                                                None => None,
                                                Some(s8) => match spec_parse_u64(s8) {
                                                    None => None,
                                                    Some((duration_ms, s9)) => match spec_parse_lit(
                                                        s9,
                                                        "}"@,
                                                    ) {
                                                        None => None,
                                                        Some(s10) => if s10.len() == 0 {
                                                            Some(
                                                                ServerMessageV::TranscriptionComplete {
                                                                    text,
                                                                    engine,
                                                                    used_fallback,
                                                                    duration_ms,
                                                                },
                                                            )
                                                        } else {
                                                            None
                                                        },
                                                    },
                                                },
                                            },
                                        },
                                    },
                                },
                            },
                        },
                    }
                } else if name == "error"@ {
                    match spec_parse_lit(s1, ",\"code\":"@) {
                        None => None,
                        Some(s2) => match spec_parse_string(s2) {
                            None => None,
                            Some((code, s3)) => match spec_parse_lit(s3, ",\"message\":"@) {
                                None => None,
                                Some(s4) => match spec_parse_string(s4) {
                                    None => None,
                                    Some((message, s5)) => match spec_parse_lit(s5, "}"@) {
                                        None => None,
                                        Some(s6) => if s6.len() == 0 {
                                            Some(ServerMessageV::Error { code, message })
                                        } else {
                                            None
                                        },
                                    },
                                },
                            },
                        },
                    }
                } else {
                    None
                }
            },
        },
    }
}

/// Decodes the canonical form of an inbound command: exactly the strings
/// that `spec_encode_client` produces.
pub open spec fn spec_decode_client(s: Seq<char>) -> Option<ClientMessageV> {
    match spec_parse_lit(s, "{\"type\":"@) {
        None => None,
        Some(s0) => match spec_parse_string(s0) {
            None => None,
            Some((name, s1)) => {
                if name == "start_recording"@ {
                    match spec_parse_lit(s1, ",\"mode\":"@) {
                        None => None,
                        Some(s2) => match spec_parse_string(s2) {
                            None => None,
                            Some((mname, s3)) => match spec_mode_of_name(mname) {
                                None => None,
                                Some(mode) => match spec_parse_lit(s3, ",\"asr_config\":"@) {
                                    None => None,
                                    Some(s4) => match spec_parse_config(s4) {
                                        None => None,
                                        Some((asr_config, s5)) => match spec_parse_lit(s5, "}"@) {
                                            None => None,
                                            Some(s6) => if s6.len() == 0 {
                                                Some(
                                                    ClientMessageV::StartRecording {
                                                        mode,
                                                        asr_config,
                                                    },
                                                )
                                            } else {
                                                None
                                            },
                                        },
                                    },
                                },
                            },
                        },
                    }
                } else if name == "stop_recording"@ {
                    match spec_parse_lit(s1, "}"@) {
                        None => None,
                        Some(s2) => if s2.len() == 0 {
                            Some(ClientMessageV::StopRecording)
                        } else {
                            None
                        },
                    }
                } else if name == "cancel_recording"@ {
                    match spec_parse_lit(s1, "}"@) {
                        None => None,
                        Some(s2) => if s2.len() == 0 {
                            Some(ClientMessageV::CancelRecording)
                        } else {
                            None
                        },
                    }
                } else if name == "update_config"@ {
                    match spec_parse_lit(s1, ",\"asr_config\":"@) {
                        None => None,
                        Some(s2) => match spec_parse_config(s2) {
                            None => None,
                            Some((asr_config, s3)) => match spec_parse_lit(s3, "}"@) {
                                None => None,
                                Some(s4) => if s4.len() == 0 {
                                    Some(ClientMessageV::UpdateConfig { asr_config })
                                } else {
                                    None
                                },
                            },
                        },
                    }
                } else {
                    None
                }
            },
        },
    }
}

/// The wire-name literals are representable text, and the same-length ones
/// are distinct.
pub proof fn lemma_wire_name_facts()
    ensures
        json_text_wf("recording_state"@),
        json_text_wf("audio_level"@),
        json_text_wf("transcription_progress"@),
        json_text_wf("transcription_complete"@),
        json_text_wf("error"@),
        json_text_wf("start_recording"@),
        json_text_wf("stop_recording"@),
        json_text_wf("cancel_recording"@),
        json_text_wf("update_config"@),
        json_text_wf("started"@),
        json_text_wf("stopped"@),
        json_text_wf("cancelled"@),
        json_text_wf("press"@),
        json_text_wf("toggle"@),
        "transcription_progress"@ != "transcription_complete"@,
        "audio_level"@ != "recording_state"@,
        "transcription_progress"@ != "recording_state"@,
        "transcription_progress"@ != "audio_level"@,
        "transcription_complete"@ != "recording_state"@,
        "transcription_complete"@ != "audio_level"@,
        "error"@ != "recording_state"@,
        "error"@ != "audio_level"@,
        "error"@ != "transcription_progress"@,
        "error"@ != "transcription_complete"@,
        "stop_recording"@ != "start_recording"@,
        "cancel_recording"@ != "start_recording"@,
        "cancel_recording"@ != "stop_recording"@,
        "update_config"@ != "start_recording"@,
        "update_config"@ != "stop_recording"@,
        "update_config"@ != "cancel_recording"@,
        "started"@ != "stopped"@,
        "cancelled"@ != "started"@,
        "cancelled"@ != "stopped"@,
        "toggle"@ != "press"@,
{
    reveal_strlit("recording_state");
    reveal_strlit("audio_level");
    reveal_strlit("transcription_progress");
    reveal_strlit("transcription_complete");
    reveal_strlit("error");
    reveal_strlit("start_recording");
    reveal_strlit("stop_recording");
    reveal_strlit("cancel_recording");
    reveal_strlit("update_config");
    reveal_strlit("started");
    reveal_strlit("stopped");
    reveal_strlit("cancelled");
    reveal_strlit("press");
    reveal_strlit("toggle");
    assert("transcription_progress"@[14] != "transcription_complete"@[14]);
    assert("audio_level"@[0] != "recording_state"@[0]);
    assert("transcription_progress"@[0] != "recording_state"@[0]);
    assert("transcription_progress"@[0] != "audio_level"@[0]);
    assert("transcription_complete"@[0] != "recording_state"@[0]);
    assert("transcription_complete"@[0] != "audio_level"@[0]);
    assert("error"@[0] != "recording_state"@[0]);
    assert("error"@[0] != "audio_level"@[0]);
    assert("error"@[0] != "transcription_progress"@[0]);
    assert("error"@[0] != "transcription_complete"@[0]);
    assert("stop_recording"@[2] != "start_recording"@[2]);
    assert("cancel_recording"@[0] != "start_recording"@[0]);
    assert("cancel_recording"@[0] != "stop_recording"@[0]);
    assert("update_config"@[0] != "start_recording"@[0]);
    assert("update_config"@[0] != "stop_recording"@[0]);
    assert("update_config"@[0] != "cancel_recording"@[0]);
    assert("started"@[2] != "stopped"@[2]);
    assert("cancelled"@[0] != "started"@[0]);
    assert("cancelled"@[0] != "stopped"@[0]);
    assert("toggle"@[0] != "press"@[0]);
}

/// A canonical configuration object, followed by anything, parses back to
/// exactly that configuration.
pub proof fn lemma_parse_config_of_encoded(c: ASRConfigV, rest: Seq<char>)
    requires
        config_wf(c),
    ensures
        spec_parse_config(spec_encode_config(c) + rest) == Some((c, rest)),
{
    let s = spec_encode_config(c) + rest;
    let r6 = spec_quoted(c.language) + "}"@;
    let r5 = ",\"language\":"@ + r6;
    let r4 = spec_quoted(c.api_key) + r5;
    let r3 = ",\"api_key\":"@ + r4;
    let r2 = spec_quoted(c.provider) + r3;
    assert(s =~= "{\"provider\":"@ + (r2 + rest));
    lemma_parse_lit_of_prefix("{\"provider\":"@, r2 + rest);
    assert(r2 + rest =~= spec_quoted(c.provider) + (r3 + rest));
    lemma_parse_string_of_quoted(c.provider, r3 + rest);
    assert(r3 + rest =~= ",\"api_key\":"@ + (r4 + rest));
    lemma_parse_lit_of_prefix(",\"api_key\":"@, r4 + rest);
    assert(r4 + rest =~= spec_quoted(c.api_key) + (r5 + rest));
    lemma_parse_string_of_quoted(c.api_key, r5 + rest);
    assert(r5 + rest =~= ",\"language\":"@ + (r6 + rest));
    lemma_parse_lit_of_prefix(",\"language\":"@, r6 + rest);
    assert(r6 + rest =~= spec_quoted(c.language) + ("}"@ + rest));
    lemma_parse_string_of_quoted(c.language, "}"@ + rest);
    lemma_parse_lit_of_prefix("}"@, rest);
    assert(spec_parse_config(s) == Some((ASRConfigV { ..c }, rest)));
    assert((ASRConfigV { ..c }) == c);
}

/// Round-trip for `recording_state` events.
proof fn lemma_server_roundtrip_recording_state(m: ServerMessageV)
    requires
        server_msg_wf(m),
        m is RecordingState,
    ensures
        spec_decode_server(spec_encode_server(m)) == Some(m),
{
    lemma_wire_name_facts();
    let s = spec_encode_server(m);
    let a = "{\"type\":"@;
    let end = Seq::<char>::empty();
    match m {
        ServerMessageV::RecordingState { state } => {
            let sn = spec_state_name(state);
            assert(json_text_wf(sn));
            let r1 = spec_quoted("recording_state"@) + (",\"state\":"@ + (spec_quoted(sn)
                + "}"@));
            lemma_parse_lit_of_prefix(a, r1);
            let r2 = ",\"state\":"@ + (spec_quoted(sn) + "}"@);
            lemma_parse_string_of_quoted("recording_state"@, r2);
            let r3 = spec_quoted(sn) + "}"@;
            lemma_parse_lit_of_prefix(",\"state\":"@, r3);
            lemma_parse_string_of_quoted(sn, "}"@);
            assert(spec_state_of_name(sn) == Some(state));
            assert("}"@ =~= "}"@ + end);
            lemma_parse_lit_of_prefix("}"@, end);
        },
        _ => {},
    }
}

/// Round-trip for `audio_level` events.
proof fn lemma_server_roundtrip_audio_level(m: ServerMessageV)
    requires
        server_msg_wf(m),
        m is AudioLevel,
    ensures
        spec_decode_server(spec_encode_server(m)) == Some(m),
{
    lemma_wire_name_facts();
    let s = spec_encode_server(m);
    let a = "{\"type\":"@;
    let end = Seq::<char>::empty();
    match m {
        ServerMessageV::AudioLevel { level, waveform } => {
            let r1 = spec_quoted("audio_level"@) + (",\"level\":"@ + (spec_milli_chars(level)
                + (",\"waveform\":"@ + (spec_milli_array(waveform) + "}"@))));
            lemma_parse_lit_of_prefix(a, r1);
            let r2 = ",\"level\":"@ + (spec_milli_chars(level) + (",\"waveform\":"@
                + (spec_milli_array(waveform) + "}"@)));
            lemma_parse_string_of_quoted("audio_level"@, r2);
            let r3 = spec_milli_chars(level) + (",\"waveform\":"@ + (spec_milli_array(waveform)
                + "}"@));
            lemma_parse_lit_of_prefix(",\"level\":"@, r3);
            let r4 = ",\"waveform\":"@ + (spec_milli_array(waveform) + "}"@);
            lemma_parse_milli_of_encoded(level, r4);
            let r5 = spec_milli_array(waveform) + "}"@;
            lemma_parse_lit_of_prefix(",\"waveform\":"@, r5);
            lemma_parse_milli_array_of_encoded(waveform, "}"@);
            assert("}"@ =~= "}"@ + end);
            lemma_parse_lit_of_prefix("}"@, end);
        },
        _ => {},
    }
}

/// Round-trip for `transcription_progress` events.
proof fn lemma_server_roundtrip_progress(m: ServerMessageV)
    requires
        server_msg_wf(m),
        m is TranscriptionProgress,
    ensures
        spec_decode_server(spec_encode_server(m)) == Some(m),
{
    lemma_wire_name_facts();
    let s = spec_encode_server(m);
    let a = "{\"type\":"@;
    let end = Seq::<char>::empty();
    match m {
        ServerMessageV::TranscriptionProgress { partial_text } => {
            let r1 = spec_quoted("transcription_progress"@) + (",\"partial_text\":"@
                + (spec_quoted(partial_text) + "}"@));
            lemma_parse_lit_of_prefix(a, r1);
            let r2 = ",\"partial_text\":"@ + (spec_quoted(partial_text) + "}"@);
            lemma_parse_string_of_quoted("transcription_progress"@, r2);
            let r3 = spec_quoted(partial_text) + "}"@;
            lemma_parse_lit_of_prefix(",\"partial_text\":"@, r3);
            lemma_parse_string_of_quoted(partial_text, "}"@);
            assert("}"@ =~= "}"@ + end);
            lemma_parse_lit_of_prefix("}"@, end);
        },
        _ => {},
    }
}

/// Round-trip for `transcription_complete` events.
#[verifier::rlimit(100)]
#[verifier::spinoff_prover]
proof fn lemma_server_roundtrip_complete(m: ServerMessageV)
    requires
        server_msg_wf(m),
        m is TranscriptionComplete,
    ensures
        spec_decode_server(spec_encode_server(m)) == Some(m),
{
    lemma_wire_name_facts();
    let s = spec_encode_server(m);
    let a = "{\"type\":"@;
    let end = Seq::<char>::empty();
    match m {
        ServerMessageV::TranscriptionComplete { text, engine, used_fallback, duration_ms } => {
            let r9 = spec_u64_chars(duration_ms as nat) + "}"@;
            let r8 = ",\"duration_ms\":"@ + r9;
            let r7 = spec_bool_chars(used_fallback) + r8;
            let r6 = ",\"used_fallback\":"@ + r7;
            let r5 = spec_quoted(engine) + r6;
            let r4 = ",\"engine\":"@ + r5;
            let r3 = spec_quoted(text) + r4;
            let r2 = ",\"text\":"@ + r3;
            let r1 = spec_quoted("transcription_complete"@) + r2;
            lemma_parse_lit_of_prefix(a, r1);
            lemma_parse_string_of_quoted("transcription_complete"@, r2);
            lemma_parse_lit_of_prefix(",\"text\":"@, r3);
            lemma_parse_string_of_quoted(text, r4);
            lemma_parse_lit_of_prefix(",\"engine\":"@, r5);
            lemma_parse_string_of_quoted(engine, r6);
            lemma_parse_lit_of_prefix(",\"used_fallback\":"@, r7);
            lemma_parse_bool_of_encoded(used_fallback, r8);
            lemma_parse_lit_of_prefix(",\"duration_ms\":"@, r9);
            reveal_strlit("}");
            assert(!spec_is_digit("}"@[0]));
            lemma_parse_u64_of_encoded(duration_ms, "}"@);
            assert("}"@ =~= "}"@ + end);
            lemma_parse_lit_of_prefix("}"@, end);
        },
        _ => {},
    }
}

/// Round-trip for `error` events.
proof fn lemma_server_roundtrip_error(m: ServerMessageV)
    requires
        server_msg_wf(m),
        m is Error,
    ensures
        spec_decode_server(spec_encode_server(m)) == Some(m),
{
    lemma_wire_name_facts();
    let s = spec_encode_server(m);
    let a = "{\"type\":"@;
    let end = Seq::<char>::empty();
    match m {
        ServerMessageV::Error { code, message } => {
            let r1 = spec_quoted("error"@) + (",\"code\":"@ + (spec_quoted(code)
                + (",\"message\":"@ + (spec_quoted(message) + "}"@))));
            lemma_parse_lit_of_prefix(a, r1);
            let r2 = ",\"code\":"@ + (spec_quoted(code) + (",\"message\":"@ + (spec_quoted(
                message,
            ) + "}"@)));
            lemma_parse_string_of_quoted("error"@, r2);
            let r3 = spec_quoted(code) + (",\"message\":"@ + (spec_quoted(message) + "}"@));
            lemma_parse_lit_of_prefix(",\"code\":"@, r3);
            let r4 = ",\"message\":"@ + (spec_quoted(message) + "}"@);
            lemma_parse_string_of_quoted(code, r4);
            let r5 = spec_quoted(message) + "}"@;
            lemma_parse_lit_of_prefix(",\"message\":"@, r5);
            lemma_parse_string_of_quoted(message, "}"@);
            assert("}"@ =~= "}"@ + end);
            lemma_parse_lit_of_prefix("}"@, end);
        },
        _ => {},
    }
}

/// Round-trip for outbound events: every well-formed server message
/// decodes from its own canonical encoding to an equivalent value.
pub proof fn lemma_server_roundtrip(m: ServerMessageV)
    requires
        server_msg_wf(m),
    ensures
        spec_decode_server(spec_encode_server(m)) == Some(m),
{
    match m {
        ServerMessageV::RecordingState { .. } => lemma_server_roundtrip_recording_state(m),
        ServerMessageV::AudioLevel { .. } => lemma_server_roundtrip_audio_level(m),
        ServerMessageV::TranscriptionProgress { .. } => lemma_server_roundtrip_progress(m),
        ServerMessageV::TranscriptionComplete { .. } => lemma_server_roundtrip_complete(m),
        ServerMessageV::Error { .. } => lemma_server_roundtrip_error(m),
    }
}
/// Round-trip for inbound commands: every well-formed client message
/// decodes from its own canonical encoding to an equivalent value.
#[verifier::rlimit(100)]
#[verifier::spinoff_prover]
pub proof fn lemma_client_roundtrip(m: ClientMessageV)
    requires
        client_msg_wf(m),
    ensures
        spec_decode_client(spec_encode_client(m)) == Some(m),
{
    lemma_wire_name_facts();
    let s = spec_encode_client(m);
    let a = "{\"type\":"@;
    let end = Seq::<char>::empty();
    match m {
        ClientMessageV::StartRecording { mode, asr_config } => {
            let mn = spec_mode_name(mode);
            assert(json_text_wf(mn));
            let r5 = spec_encode_config(asr_config) + "}"@;
            let r4 = ",\"asr_config\":"@ + r5;
            let r3 = spec_quoted(mn) + r4;
            let r2 = ",\"mode\":"@ + r3;
            let r1 = spec_quoted("start_recording"@) + r2;
            lemma_parse_lit_of_prefix(a, r1);
            lemma_parse_string_of_quoted("start_recording"@, r2);
            lemma_parse_lit_of_prefix(",\"mode\":"@, r3);
            lemma_parse_string_of_quoted(mn, r4);
            assert(spec_mode_of_name(mn) == Some(mode));
            lemma_parse_lit_of_prefix(",\"asr_config\":"@, r5);
            lemma_parse_config_of_encoded(asr_config, "}"@);
            assert("}"@ =~= "}"@ + end);
            lemma_parse_lit_of_prefix("}"@, end);
        },
        ClientMessageV::StopRecording => {
            let r1 = spec_quoted("stop_recording"@) + "}"@;
            lemma_parse_lit_of_prefix(a, r1);
            lemma_parse_string_of_quoted("stop_recording"@, "}"@);
            assert("}"@ =~= "}"@ + end);
            lemma_parse_lit_of_prefix("}"@, end);
        },
        ClientMessageV::CancelRecording => {
            let r1 = spec_quoted("cancel_recording"@) + "}"@;
            lemma_parse_lit_of_prefix(a, r1);
            lemma_parse_string_of_quoted("cancel_recording"@, "}"@);
            assert("}"@ =~= "}"@ + end);
            lemma_parse_lit_of_prefix("}"@, end);
        },
        ClientMessageV::UpdateConfig { asr_config } => {
            let r3 = spec_encode_config(asr_config) + "}"@;
            let r2 = ",\"asr_config\":"@ + r3;
            let r1 = spec_quoted("update_config"@) + r2;
            lemma_parse_lit_of_prefix(a, r1);
            lemma_parse_string_of_quoted("update_config"@, r2);
            lemma_parse_lit_of_prefix(",\"asr_config\":"@, r3);
            lemma_parse_config_of_encoded(asr_config, "}"@);
            assert("}"@ =~= "}"@ + end);
            lemma_parse_lit_of_prefix("}"@, end);
        },
    }
}

/// Prefixes of a digit run evaluate to no more than the whole run.
pub proof fn lemma_digits_val_prefix_le(d: Seq<char>, i: int, j: int)
    requires
        0 <= i <= j <= d.len(),
    ensures
        spec_digits_val(d.take(i)) <= spec_digits_val(d.take(j)),
    decreases j - i,
{
    if i < j {
        lemma_digits_val_prefix_le(d, i, j - 1);
        assert(d.take(j).drop_last() =~= d.take(j - 1));
        assert(spec_digits_val(d.take(j)) >= spec_digits_val(d.take(j - 1)));
    } else {
        assert(d.take(i) =~= d.take(j));
    }
}

/// The digit value of a character.
fn char_digit(c: char) -> (r: Option<u8>)
    ensures
        r == spec_char_digit(c),
{
    match c {
        '0' => Some(0),
        '1' => Some(1),
        '2' => Some(2),
        '3' => Some(3),
        '4' => Some(4),
        '5' => Some(5),
        '6' => Some(6),
        '7' => Some(7),
        '8' => Some(8),
        '9' => Some(9),
        _ => None,
    }
}

/// Consumes an expected literal at `pos`, returning the position after it.
fn eat_lit(v: &Vec<char>, pos: usize, lit: &str) -> (r: Option<usize>)
    requires
        pos <= v@.len(),
    ensures
        (match r {
            Some(p) => pos <= p <= v@.len() && spec_parse_lit(v@.skip(pos as int), lit@) == Some(
                v@.skip(p as int),
            ),
            None => spec_parse_lit(v@.skip(pos as int), lit@) is None,
        }),
{
    let n: usize = vstd::string::StrSliceExecFns::unicode_len(lit);
    let vn: usize = v.len();
    if n > vn - pos {
        proof {
            assert(v@.skip(pos as int).len() < lit@.len());
        }
        return None;
    }
    let mut i: usize = 0;
    while i < n
        invariant
            pos + n <= vn,
            vn == v@.len(),
            i <= n,
            n == lit@.len(),
            forall|j: int| 0 <= j < i ==> v@[pos + j] == lit@[j],
        decreases n - i,
    {
        if v[pos + i] != lit.get_char(i) {
            proof {
                let s = v@.skip(pos as int);
                assert(s.take(n as int)[i as int] == v@[pos + i]);
                assert(s.take(n as int) != lit@);
            }
            return None;
        }
        i = i + 1;
    }
    proof {
        let s = v@.skip(pos as int);
        assert(s.take(n as int) =~= lit@);
        assert(s.skip(n as int) =~= v@.skip((pos + n) as int));
    }
    Some(pos + n)
}

/// Consumes a JSON string at `pos`, returning the carried text and the
/// position after the closing quote.
fn eat_string(v: &Vec<char>, pos: usize) -> (r: Option<(String, usize)>)
    requires
        pos <= v@.len(),
    ensures
        (match r {
            Some(t) => pos <= t.1 <= v@.len() && spec_parse_string(v@.skip(pos as int)) == Some(
                (t.0@, v@.skip(t.1 as int)),
            ),
            None => spec_parse_string(v@.skip(pos as int)) is None,
        }),
{
    if pos == v.len() {
        return None;
    }
    if v[pos] != '"' {
        proof {
            assert(v@.skip(pos as int)[0] != '"');
        }
        return None;
    }
    proof {
        assert(v@.skip(pos as int)[0] == '"');
        assert(v@.skip(pos as int).drop_first() =~= v@.skip(pos + 1 as int));
    }
    let mut out: Vec<char> = Vec::new();
    let mut i: usize = pos + 1;
    loop
        invariant
            pos + 1 <= i <= v@.len(),
            pos < v@.len(),
            v@[pos as int] == '"',
            spec_parse_string(v@.skip(pos as int)) == spec_parse_string_body(
                v@.skip(pos + 1 as int),
            ),
            spec_parse_string_body(v@.skip(pos + 1 as int)) == (match spec_parse_string_body(
                v@.skip(i as int),
            ) {
                None => None::<(Seq<char>, Seq<char>)>,
                Some(t) => Some((out@ + t.0, t.1)),
            }),
        decreases v@.len() - i,
    {
        if i == v.len() {
            proof {
                assert(v@.skip(i as int).len() == 0);
            }
            return None;
        }
        let c = v[i];
        proof {
            assert(v@.skip(i as int)[0] == c);
            assert(v@.skip(i as int).drop_first() =~= v@.skip(i + 1 as int));
        }
        if c == '"' {
            proof {
                assert(spec_parse_string_body(v@.skip(i as int)) == Some(
                    (Seq::<char>::empty(), v@.skip(i + 1 as int)),
                ));
                assert(out@ + Seq::<char>::empty() =~= out@);
            }
            let t = chars_to_string(&out);
            return Some((t, i + 1));
        } else if c == '\\' {
            if i + 1 == v.len() {
                proof {
                    assert(v@.skip(i as int).len() < 2);
                }
                return None;
            }
            let e = v[i + 1];
            proof {
                assert(v@.skip(i as int)[1] == e);
            }
            let u: Option<char> = match e {
                '"' => Some('"'),
                '\\' => Some('\\'),
                'n' => Some('\n'),
                'r' => Some('\r'),
                't' => Some('\t'),
                _ => None,
            };
            match u {
                None => {
                    proof {
                        assert(spec_unescape_char(e) is None);
                    }
                    return None;
                },
                Some(c2) => {
                    proof {
                        assert(spec_unescape_char(e) == Some(c2));
                        assert(v@.skip(i as int).skip(2) =~= v@.skip(i + 2 as int));
                        match spec_parse_string_body(v@.skip(i + 2 as int)) {
                            Some(t) => {
                                assert(out@ + (seq![c2] + t.0) =~= (out@ + seq![c2]) + t.0);
                                assert(out@.push(c2) =~= out@ + seq![c2]);
                            },
                            None => {},
                        }
                    }
                    out.push(c2);
                    i = i + 2;
                },
            }
        } else {
            let cu = c as u32;
            if !(cu >= 32 || c == '\n' || c == '\r' || c == '\t') {
                proof {
                    assert(!json_char_wf(c));
                }
                return None;
            }
            proof {
                assert(json_char_wf(c));
                match spec_parse_string_body(v@.skip(i + 1 as int)) {
                    Some(t) => {
                        assert(out@ + (seq![c] + t.0) =~= (out@ + seq![c]) + t.0);
                        assert(out@.push(c) =~= out@ + seq![c]);
                    },
                    None => {},
                }
            }
            out.push(c);
            i = i + 1;
        }
    }
}

/// Consumes a canonical unsigned decimal at `pos`.
fn eat_u64(v: &Vec<char>, pos: usize) -> (r: Option<(u64, usize)>)
    requires
        pos <= v@.len(),
    ensures
        (match r {
            Some(t) => pos <= t.1 <= v@.len() && spec_parse_u64(v@.skip(pos as int)) == Some(
                (t.0, v@.skip(t.1 as int)),
            ),
            None => spec_parse_u64(v@.skip(pos as int)) is None,
        }),
{
    let s_len = v.len();
    let mut j: usize = pos;
    loop
        invariant_except_break
            pos <= j <= v@.len(),
            s_len == v@.len(),
            forall|q: int| pos <= q < j ==> spec_is_digit(#[trigger] v@[q]),
        ensures
            pos <= j <= v@.len(),
            forall|q: int| pos <= q < j ==> spec_is_digit(#[trigger] v@[q]),
            j == v@.len() || !spec_is_digit(v@[j as int]),
        decreases v@.len() - j,
    {
        if j == s_len {
            break;
        }
        match char_digit(v[j]) {
            Some(_) => {
                j = j + 1;
            },
            None => {
                break;
            },
        }
    }
    proof {
        let s = v@.skip(pos as int);
        let a = v@.subrange(pos as int, j as int);
        let b = v@.skip(j as int);
        assert(s =~= a + b);
        assert(forall|q: int| 0 <= q < a.len() ==> spec_is_digit(#[trigger] a[q])) by {
            assert(forall|q: int| 0 <= q < a.len() ==> a[q] == v@[pos + q]);
        }
        assert(b.len() == 0 || !spec_is_digit(b[0]));
        lemma_digit_prefix_of_concat(a, b);
        assert(spec_digit_prefix_len(s) == j - pos);
    }
    if j == pos {
        return None;
    }
    if v[pos] == '0' && j > pos + 1 {
        proof {
            assert(v@.skip(pos as int)[0] == '0');
        }
        return None;
    }
    let ghost s = v@.skip(pos as int);
    let ghost k: int = j - pos;
    proof {
        assert(s.take(k) =~= v@.subrange(pos as int, j as int));
    }
    let mut acc: u64 = 0;
    let mut idx: usize = pos;
    while idx < j
        invariant
            pos <= idx <= j <= v@.len(),
            s == v@.skip(pos as int),
            k == j - pos,
            forall|q: int| pos <= q < j ==> spec_is_digit(#[trigger] v@[q]),
            s.take(k) =~= v@.subrange(pos as int, j as int),
            acc == spec_digits_val(s.take(idx - pos)),
            spec_digit_prefix_len(s) == k,
            k >= 1,
            !(s[0] == '0' && k > 1),
        decreases j - idx,
    {
        let d = match char_digit(v[idx]) {
            Some(d) => d,
            None => {
                proof {
                    assert(spec_is_digit(v@[idx as int]));
                    assert(false);
                }
                0
            },
        };
        proof {
            assert(s.take(idx - pos + 1).drop_last() =~= s.take(idx - pos));
            assert(s.take(idx - pos + 1).last() == v@[idx as int]);
            assert(spec_digits_val(s.take(idx - pos + 1)) == spec_digits_val(s.take(idx - pos))
                * 10 + d);
            vstd::arithmetic::div_mod::lemma_fundamental_div_mod((u64::MAX - d) as int, 10);
        }
        if acc > (u64::MAX - d as u64) / 10 {
            proof {
                assert(spec_digits_val(s.take(idx - pos + 1)) > u64::MAX);
                lemma_digits_val_prefix_le(s, idx - pos + 1, k);
                assert(spec_digits_val(s.take(k)) > u64::MAX);
            }
            return None;
        }
        proof {
            assert(acc * 10 + d <= u64::MAX);
        }
        acc = acc * 10 + d as u64;
        idx = idx + 1;
    }
    proof {
        assert(s.skip(k) =~= v@.skip(j as int));
        assert(spec_digits_val(s.take(k)) == acc);
    }
    Some((acc, j))
}

/// Consumes a three-decimal level at `pos`.
fn eat_milli(v: &Vec<char>, pos: usize) -> (r: Option<(u32, usize)>)
    requires
        pos <= v@.len(),
    ensures
        (match r {
            Some(t) => pos <= t.1 <= v@.len() && t.0 <= 1000 && spec_parse_milli(
                v@.skip(pos as int),
            ) == Some((t.0, v@.skip(t.1 as int))),
            None => spec_parse_milli(v@.skip(pos as int)) is None,
        }),
{
    if v.len() - pos < 5 {
        return None;
    }
    proof {
        let s = v@.skip(pos as int);
        assert(s.len() >= 5);
        assert(s[0] == v@[pos as int]);
        assert(s[1] == v@[pos + 1 as int]);
        assert(s[2] == v@[pos + 2 as int]);
        assert(s[3] == v@[pos + 3 as int]);
        assert(s[4] == v@[pos + 4 as int]);
        assert(s.skip(5) =~= v@.skip(pos + 5 as int));
    }
    let d0 = match char_digit(v[pos]) {
        Some(d) => d,
        None => {
            return None;
        },
    };
    if v[pos + 1] != '.' {
        return None;
    }
    let d1 = match char_digit(v[pos + 2]) {
        Some(d) => d,
        None => {
            return None;
        },
    };
    let d2 = match char_digit(v[pos + 3]) {
        Some(d) => d,
        None => {
            return None;
        },
    };
    let d3 = match char_digit(v[pos + 4]) {
        Some(d) => d,
        None => {
            return None;
        },
    };
    let val: u32 = d0 as u32 * 1000 + d1 as u32 * 100 + d2 as u32 * 10 + d3 as u32;
    if val > 1000 {
        return None;
    }
    Some((val, pos + 5))
}

/// Consumes a level array at `pos`.
fn eat_milli_array(v: &Vec<char>, pos: usize) -> (r: Option<(Vec<u32>, usize)>)
    requires
        pos <= v@.len(),
    ensures
        (match r {
            Some(t) => pos <= t.1 <= v@.len() && spec_parse_milli_array(v@.skip(pos as int))
                == Some((t.0@, v@.skip(t.1 as int))),
            None => spec_parse_milli_array(v@.skip(pos as int)) is None,
        }),
{
    if pos == v.len() || v[pos] != '[' {
        proof {
            if pos < v@.len() {
                assert(v@.skip(pos as int)[0] != '[');
            }
        }
        return None;
    }
    proof {
        assert(v@.skip(pos as int)[0] == '[');
        assert(v@.skip(pos as int).drop_first() =~= v@.skip(pos + 1 as int));
    }
    if pos + 1 < v.len() && v[pos + 1] == ']' {
        proof {
            assert(v@.skip(pos as int)[1] == ']');
            assert(v@.skip(pos as int).skip(2) =~= v@.skip(pos + 2 as int));
        }
        return Some((Vec::new(), pos + 2));
    }
    proof {
        let s = v@.skip(pos as int);
        assert(!(s.len() >= 2 && s[0] == '[' && s[1] == ']'));
    }
    let mut ws: Vec<u32> = Vec::new();
    let mut i: usize = pos + 1;
    loop
        invariant
            pos + 1 <= i <= v@.len(),
            pos < v@.len(),
            spec_parse_milli_array(v@.skip(pos as int)) == spec_parse_milli_items(
                v@.skip(pos + 1 as int),
            ),
            spec_parse_milli_items(v@.skip(pos + 1 as int)) == (match spec_parse_milli_items(
                v@.skip(i as int),
            ) {
                None => None::<(Seq<u32>, Seq<char>)>,
                Some(t) => Some((ws@ + t.0, t.1)),
            }),
        decreases v@.len() - i,
    {
        let m = match eat_milli(v, i) {
            Some(t) => t,
            None => {
                return None;
            },
        };
        let p = m.1;
        if p == v.len() {
            proof {
                assert(v@.skip(p as int).len() == 0);
            }
            return None;
        }
        proof {
            assert(v@.skip(p as int)[0] == v@[p as int]);
            assert(v@.skip(p as int).drop_first() =~= v@.skip(p + 1 as int));
        }
        if v[p] == ',' {
            proof {
                match spec_parse_milli_items(v@.skip(p + 1 as int)) {
                    Some(t) => {
                        assert(ws@ + (seq![m.0] + t.0) =~= (ws@ + seq![m.0]) + t.0);
                        assert(ws@.push(m.0) =~= ws@ + seq![m.0]);
                    },
                    None => {},
                }
            }
            ws.push(m.0);
            i = p + 1;
        } else if v[p] == ']' {
            proof {
                assert(spec_parse_milli_items(v@.skip(i as int)) == Some(
                    (seq![m.0], v@.skip(p + 1 as int)),
                ));
                assert(ws@ + seq![m.0] =~= ws@.push(m.0));
            }
            ws.push(m.0);
            return Some((ws, p + 1));
        } else {
            return None;
        }
    }
}

/// Consumes a JSON boolean at `pos`.
fn eat_bool(v: &Vec<char>, pos: usize) -> (r: Option<(bool, usize)>)
    requires
        pos <= v@.len(),
    ensures
        (match r {
            Some(t) => pos <= t.1 <= v@.len() && spec_parse_bool(v@.skip(pos as int)) == Some(
                (t.0, v@.skip(t.1 as int)),
            ),
            None => spec_parse_bool(v@.skip(pos as int)) is None,
        }),
{
    match eat_lit(v, pos, "true") {
        Some(p) => Some((true, p)),
        None => match eat_lit(v, pos, "false") {
            Some(p) => Some((false, p)),
            None => None,
        },
    }
}

/// Consumes a canonical configuration object at `pos`.
fn eat_config(v: &Vec<char>, pos: usize) -> (r: Option<(ASRConfig, usize)>)
    requires
        pos <= v@.len(),
    ensures
        (match r {
            Some(t) => pos <= t.1 <= v@.len() && spec_parse_config(v@.skip(pos as int)) == Some(
                (t.0@, v@.skip(t.1 as int)),
            ),
            None => spec_parse_config(v@.skip(pos as int)) is None,
        }),
{
    let p1 = match eat_lit(v, pos, "{\"provider\":") {
        Some(p) => p,
        None => {
            return None;
        },
    };
    let provider = match eat_string(v, p1) {
        Some(t) => t,
        None => {
            return None;
        },
    };
    let p3 = match eat_lit(v, provider.1, ",\"api_key\":") {
        Some(p) => p,
        None => {
            return None;
        },
    };
    let api_key = match eat_string(v, p3) {
        Some(t) => t,
        None => {
            return None;
        },
    };
    let p5 = match eat_lit(v, api_key.1, ",\"language\":") {
        Some(p) => p,
        None => {
            return None;
        },
    };
    let language = match eat_string(v, p5) {
        Some(t) => t,
        None => {
            return None;
        },
    };
    let p7 = match eat_lit(v, language.1, "}") {
        Some(p) => p,
        None => {
            return None;
        },
    };
    Some((ASRConfig { provider: provider.0, api_key: api_key.0, language: language.0 }, p7))
}

/// Decodes the canonical JSON text of an outbound event. Returns `None` on
/// anything but the canonical form.
#[verifier::rlimit(100)]
#[verifier::spinoff_prover]
pub fn decode_server_message(s: &str) -> (r: Option<ServerMessage>)
    ensures
        (match r {
            Some(m) => spec_decode_server(s@) == Some(m@),
            None => spec_decode_server(s@) is None,
        }),
{
    let v = str_to_chars(s);
    proof {
        assert(v@.skip(0) =~= s@);
    }
    let p0 = match eat_lit(&v, 0, "{\"type\":") {
        Some(p) => p,
        None => {
            return None;
        },
    };
    let name = match eat_string(&v, p0) {
        Some(t) => t,
        None => {
            return None;
        },
    };
    let p1 = name.1;
    if crate::text::str_eq(name.0.as_str(), "recording_state") {
        let p2 = match eat_lit(&v, p1, ",\"state\":") {
            Some(p) => p,
            None => {
                return None;
            },
        };
        let sname = match eat_string(&v, p2) {
            Some(t) => t,
            None => {
                return None;
            },
        };
        let st = if crate::text::str_eq(sname.0.as_str(), "started") {
            RecordingState::Started
        } else if crate::text::str_eq(sname.0.as_str(), "stopped") {
            RecordingState::Stopped
        } else if crate::text::str_eq(sname.0.as_str(), "cancelled") {
            RecordingState::Cancelled
        } else {
            proof {
                assert(spec_state_of_name(sname.0@) is None);
            }
            return None;
        };
        proof {
            assert(spec_state_of_name(sname.0@) == Some(st));
        }
        let p3 = match eat_lit(&v, sname.1, "}") {
            Some(p) => p,
            None => {
                return None;
            },
        };
        if p3 != v.len() {
            proof {
                assert(v@.skip(p3 as int).len() != 0);
            }
            return None;
        }
        proof {
            assert(v@.skip(p3 as int).len() == 0);
        }
        Some(ServerMessage::RecordingState { state: st })
    } else if crate::text::str_eq(name.0.as_str(), "audio_level") {
        let p2 = match eat_lit(&v, p1, ",\"level\":") {
            Some(p) => p,
            None => {
                return None;
            },
        };
        let level = match eat_milli(&v, p2) {
            Some(t) => t,
            None => {
                return None;
            },
        };
        let p3 = match eat_lit(&v, level.1, ",\"waveform\":") {
            Some(p) => p,
            None => {
                return None;
            },
        };
        let waveform = match eat_milli_array(&v, p3) {
            Some(t) => t,
            None => {
                return None;
            },
        };
        let p4 = match eat_lit(&v, waveform.1, "}") {
            Some(p) => p,
            None => {
                return None;
            },
        };
        if p4 != v.len() {
            proof {
                assert(v@.skip(p4 as int).len() != 0);
            }
            return None;
        }
        proof {
            assert(v@.skip(p4 as int).len() == 0);
        }
        Some(ServerMessage::AudioLevel { level: level.0, waveform: waveform.0 })
    } else if crate::text::str_eq(name.0.as_str(), "transcription_progress") {
        let p2 = match eat_lit(&v, p1, ",\"partial_text\":") {
            Some(p) => p,
            None => {
                return None;
            },
        };
        let partial = match eat_string(&v, p2) {
            Some(t) => t,
            None => {
                return None;
            },
        };
        let p3 = match eat_lit(&v, partial.1, "}") {
            Some(p) => p,
            None => {
                return None;
            },
        };
        if p3 != v.len() {
            proof {
                assert(v@.skip(p3 as int).len() != 0);
            }
            return None;
        }
        proof {
            assert(v@.skip(p3 as int).len() == 0);
        }
        Some(ServerMessage::TranscriptionProgress { partial_text: partial.0 })
    } else if crate::text::str_eq(name.0.as_str(), "transcription_complete") {
        let p2 = match eat_lit(&v, p1, ",\"text\":") {
            Some(p) => p,
            None => {
                return None;
            },
        };
        let text = match eat_string(&v, p2) {
            Some(t) => t,
            None => {
                return None;
            },
        };
        let p3 = match eat_lit(&v, text.1, ",\"engine\":") {
            Some(p) => p,
            None => {
                return None;
            },
        };
        let engine = match eat_string(&v, p3) {
            Some(t) => t,
            None => {
                return None;
            },
        };
        let p4 = match eat_lit(&v, engine.1, ",\"used_fallback\":") {
            Some(p) => p,
            None => {
                return None;
            },
        };
        let used = match eat_bool(&v, p4) {
            Some(t) => t,
            None => {
                return None;
            },
        };
        let p5 = match eat_lit(&v, used.1, ",\"duration_ms\":") {
            Some(p) => p,
            None => {
                return None;
            },
        };
        let duration = match eat_u64(&v, p5) {
            Some(t) => t,
            None => {
                return None;
            },
        };
        let p6 = match eat_lit(&v, duration.1, "}") {
            Some(p) => p,
            None => {
                return None;
            },
        };
        if p6 != v.len() {
            proof {
                assert(v@.skip(p6 as int).len() != 0);
            }
            return None;
        }
        proof {
            assert(v@.skip(p6 as int).len() == 0);
        }
        Some(
            ServerMessage::TranscriptionComplete {
                text: text.0,
                engine: engine.0,
                used_fallback: used.0,
                duration_ms: duration.0,
            },
        )
    } else if crate::text::str_eq(name.0.as_str(), "error") {
        let p2 = match eat_lit(&v, p1, ",\"code\":") {
            Some(p) => p,
            None => {
                return None;
            },
        };
        let code = match eat_string(&v, p2) {
            Some(t) => t,
            None => {
                return None;
            },
        };
        let p3 = match eat_lit(&v, code.1, ",\"message\":") {
            Some(p) => p,
            None => {
                return None;
            },
        };
        let message = match eat_string(&v, p3) {
            Some(t) => t,
            None => {
                return None;
            },
        };
        let p4 = match eat_lit(&v, message.1, "}") {
            Some(p) => p,
            None => {
                return None;
            },
        };
        if p4 != v.len() {
            proof {
                assert(v@.skip(p4 as int).len() != 0);
            }
            return None;
        }
        proof {
            assert(v@.skip(p4 as int).len() == 0);
        }
        Some(ServerMessage::Error { code: code.0, message: message.0 })
    } else {
        None
    }
}

/// Decodes the canonical JSON text of an inbound command. Returns `None`
/// on anything but the canonical form.
#[verifier::rlimit(100)]
#[verifier::spinoff_prover]
pub fn decode_client_message(s: &str) -> (r: Option<ClientMessage>)
    ensures
        (match r {
            Some(m) => spec_decode_client(s@) == Some(m@),
            None => spec_decode_client(s@) is None,
        }),
{
    let v = str_to_chars(s);
    proof {
        assert(v@.skip(0) =~= s@);
    }
    let p0 = match eat_lit(&v, 0, "{\"type\":") {
        Some(p) => p,
        None => {
            return None;
        },
    };
    let name = match eat_string(&v, p0) {
        Some(t) => t,
        None => {
            return None;
        },
    };
    let p1 = name.1;
    if crate::text::str_eq(name.0.as_str(), "start_recording") {
        let p2 = match eat_lit(&v, p1, ",\"mode\":") {
            Some(p) => p,
            None => {
                return None;
            },
        };
        let mname = match eat_string(&v, p2) {
            Some(t) => t,
            None => {
                return None;
            },
        };
        let mode = if crate::text::str_eq(mname.0.as_str(), "press") {
            RecordingMode::Press
        } else if crate::text::str_eq(mname.0.as_str(), "toggle") {
            RecordingMode::Toggle
        } else {
            proof {
                assert(spec_mode_of_name(mname.0@) is None);
            }
            return None;
        };
        proof {
            assert(spec_mode_of_name(mname.0@) == Some(mode));
        }
        let p3 = match eat_lit(&v, mname.1, ",\"asr_config\":") {
            Some(p) => p,
            None => {
                return None;
            },
        };
        let config = match eat_config(&v, p3) {
            Some(t) => t,
            None => {
                return None;
            },
        };
        let p4 = match eat_lit(&v, config.1, "}") {
            Some(p) => p,
            None => {
                return None;
            },
        };
        if p4 != v.len() {
            proof {
                assert(v@.skip(p4 as int).len() != 0);
            }
            return None;
        }
        proof {
            assert(v@.skip(p4 as int).len() == 0);
        }
        Some(ClientMessage::StartRecording { mode, asr_config: config.0 })
    } else if crate::text::str_eq(name.0.as_str(), "stop_recording") {
        let p2 = match eat_lit(&v, p1, "}") {
            Some(p) => p,
            None => {
                return None;
            },
        };
        if p2 != v.len() {
            proof {
                assert(v@.skip(p2 as int).len() != 0);
            }
            return None;
        }
        proof {
            assert(v@.skip(p2 as int).len() == 0);
        }
        Some(ClientMessage::StopRecording)
    } else if crate::text::str_eq(name.0.as_str(), "cancel_recording") {
        let p2 = match eat_lit(&v, p1, "}") {
            Some(p) => p,
            None => {
                return None;
            },
        };
        if p2 != v.len() {
            proof {
                assert(v@.skip(p2 as int).len() != 0);
            }
            return None;
        }
        proof {
            assert(v@.skip(p2 as int).len() == 0);
        }
        Some(ClientMessage::CancelRecording)
    } else if crate::text::str_eq(name.0.as_str(), "update_config") {
        let p2 = match eat_lit(&v, p1, ",\"asr_config\":") {
            Some(p) => p,
            None => {
                return None;
            },
        };
        let config = match eat_config(&v, p2) {
            Some(t) => t,
            None => {
                return None;
            },
        };
        let p3 = match eat_lit(&v, config.1, "}") {
            Some(p) => p,
            None => {
                return None;
            },
        };
        if p3 != v.len() {
            proof {
                assert(v@.skip(p3 as int).len() != 0);
            }
            return None;
        }
        proof {
            assert(v@.skip(p3 as int).len() == 0);
        }
        Some(ClientMessage::UpdateConfig { asr_config: config.0 })
    } else {
        None
    }
}

} // verus!
