//! The wire grammar of outbound control events.
//!
//! An outbound event is one text frame holding a positional JSON array
//! `[code, payload, timestampMillis]`.  The payload embeds caller-supplied
//! strings, which must be escaped so that a quote, a backslash or a control
//! character cannot break out of the surrounding JSON string literal.
//! Everything here works on UTF-8 bytes: escaping only ever touches ASCII
//! bytes, so multi-byte characters pass through unchanged.
use vstd::prelude::*;
use vstd::slice::slice_to_vec;
use vstd::string::StringSliceAdditionalSpecFns;

verus! {

/// Event code the remote service uses for adding a video to the playlist.
pub const ADD_VIDEO_CODE: u64 = 30;

/// Event code the remote service uses for renaming the connected user.
pub const RENAME_CODE: u64 = 12;

/// The low hexadecimal digit (`0`-`9`, `a`-`f`) for a value below 16.
pub open spec fn spec_hex_digit(n: nat) -> u8
    recommends
        n < 16,
{
    if n < 10 {
        (48 + n) as u8
    } else {
        (87 + n) as u8
    }
}

/// The numeric value of a low hexadecimal digit byte.
pub open spec fn spec_hex_val(d: u8) -> nat {
    if 48 <= d <= 57 {
        (d - 48) as nat
    } else if 97 <= d <= 102 {
        (d - 87) as nat
    } else {
        0
    }
}

/// How one byte appears inside a JSON string literal: a quote or backslash is
/// preceded by a backslash, a control byte becomes a `\u00XX` sequence, and
/// every other byte stands as itself.
pub open spec fn spec_escape_byte(b: u8) -> Seq<u8> {
    if b == 34 {
        seq![92u8, 34u8]
    } else if b == 92 {
        seq![92u8, 92u8]
    } else if b < 32 {
        seq![92u8, 117u8, 48u8, 48u8, spec_hex_digit((b / 16) as nat), spec_hex_digit(
            (b % 16) as nat,
        )]
    } else {
        seq![b]
    }
}

/// The JSON-string-literal escaping of a byte sequence.
pub open spec fn spec_escape_bytes(s: Seq<u8>) -> Seq<u8>
    decreases s.len(),
{
    if s.len() == 0 {
        Seq::empty()
    } else {
        spec_escape_byte(s.first()) + spec_escape_bytes(s.drop_first())
    }
}

/// Escaping a sequence extended by one byte appends that byte's escape.
pub proof fn lemma_escape_bytes_push(s: Seq<u8>, b: u8)
    ensures
        spec_escape_bytes(s.push(b)) == spec_escape_bytes(s) + spec_escape_byte(b),
    decreases s.len(),
{
    if s.len() == 0 {
        assert(s.push(b).drop_first() =~= Seq::<u8>::empty());
        assert(s.push(b).first() == b);
        assert(spec_escape_bytes(s.push(b)) == spec_escape_byte(b) + spec_escape_bytes(
            Seq::<u8>::empty(),
        ));
        assert(spec_escape_byte(b) + spec_escape_bytes(Seq::<u8>::empty()) =~= spec_escape_byte(b));
        assert(spec_escape_bytes(s) =~= Seq::<u8>::empty());
        assert(spec_escape_bytes(s) + spec_escape_byte(b) =~= spec_escape_byte(b));
    } else {
        assert(s.push(b).drop_first() =~= s.drop_first().push(b));
        assert(s.push(b).first() == s.first());
        lemma_escape_bytes_push(s.drop_first(), b);
        assert(spec_escape_bytes(s.push(b)) == spec_escape_byte(s.first()) + (spec_escape_bytes(
            s.drop_first(),
        ) + spec_escape_byte(b)));
        assert(spec_escape_byte(s.first()) + (spec_escape_bytes(s.drop_first())
            + spec_escape_byte(b)) =~= (spec_escape_byte(s.first()) + spec_escape_bytes(
            s.drop_first(),
        )) + spec_escape_byte(b));
    }
}

/// The inverse reading of an escaped JSON string body: a `\u00XX` sequence
/// becomes the byte it names, a backslash followed by any other byte becomes
/// that byte, and a truncated escape at the end is dropped.
pub open spec fn spec_unescape_bytes(s: Seq<u8>) -> Seq<u8>
    decreases s.len(),
{
    if s.len() == 0 {
        Seq::empty()
    } else if s.first() == 92 {
        if s.len() >= 6 && s[1] == 117 {
            seq![(spec_hex_val(s[4]) * 16 + spec_hex_val(s[5])) as u8] + spec_unescape_bytes(
                s.skip(6),
            )
        } else if s.len() >= 2 && s[1] != 117 {
            seq![s[1]] + spec_unescape_bytes(s.skip(2))
        } else {
            Seq::empty()
        }
    } else {
        seq![s.first()] + spec_unescape_bytes(s.drop_first())
    }
}

/// Escaping loses nothing: reading an escaped sequence back yields the
/// original bytes, whatever they were.
pub proof fn lemma_escape_round_trip(s: Seq<u8>)
    ensures
        spec_unescape_bytes(spec_escape_bytes(s)) == s,
    decreases s.len(),
{
    if s.len() == 0 {
    } else {
        let b = s.first();
        let rest = s.drop_first();
        lemma_escape_round_trip(rest);
        let tail = spec_escape_bytes(rest);
        let whole = spec_escape_bytes(s);
        assert(whole == spec_escape_byte(b) + tail);
        if b == 34 || b == 92 {
            assert(whole.len() >= 2);
            assert(whole.first() == 92);
            assert(whole[1] == b);
            assert(whole[1] != 117);
            assert(whole.skip(2) =~= tail);
            assert(spec_unescape_bytes(whole) =~= seq![b] + rest);
            assert(seq![b] + rest =~= s);
        } else if b < 32 {
            let h1 = spec_hex_digit((b / 16) as nat);
            let h2 = spec_hex_digit((b % 16) as nat);
            assert(whole.len() >= 6);
            assert(whole.first() == 92 && whole[1] == 117);
            assert(whole[4] == h1 && whole[5] == h2);
            assert(spec_hex_val(h1) == (b / 16) as nat);
            assert(spec_hex_val(h2) == (b % 16) as nat);
            assert(b / 16 * 16 + b % 16 == b) by {
                vstd::arithmetic::div_mod::lemma_fundamental_div_mod(b as int, 16);
            }
            assert(whole.skip(6) =~= tail);
            assert(spec_unescape_bytes(whole) =~= seq![b] + rest);
            assert(seq![b] + rest =~= s);
        } else {
            assert(whole.first() == b && b != 92);
            assert(whole.drop_first() =~= tail);
            assert(spec_unescape_bytes(whole) =~= seq![b] + rest);
            assert(seq![b] + rest =~= s);
        }
    }
}

/// The low hexadecimal digit for a value below 16.
pub fn hex_digit(n: u8) -> (d: u8)
    requires
        n < 16,
    ensures
        d == spec_hex_digit(n as nat),
{
    if n < 10 {
        48 + n
    } else {
        87 + n
    }
}

/// The numeric value of a low hexadecimal digit byte.
pub fn hex_val(d: u8) -> (n: u8)
    ensures
        n as nat == spec_hex_val(d),
        n < 16,
{
    if 48 <= d && d <= 57 {
        d - 48
    } else if 97 <= d && d <= 102 {
        d - 87
    } else {
        0
    }
}

/// Escapes a byte sequence for inclusion in a JSON string literal.
pub fn escape_json_bytes(s: &[u8]) -> (out: Vec<u8>)
    ensures
        out@ == spec_escape_bytes(s@),
{
    let mut out: Vec<u8> = Vec::new();
    let mut i: usize = 0;
    while i < s.len()
        invariant
            i <= s@.len(),
            out@ == spec_escape_bytes(s@.subrange(0, i as int)),
        decreases s@.len() - i,
    {
        let b = s[i];
        if b == 34 {
            out.push(92);
            out.push(34);
        } else if b == 92 {
            out.push(92);
            out.push(92);
        } else if b < 32 {
            out.push(92);
            out.push(117);
            out.push(48);
            out.push(48);
            out.push(hex_digit(b / 16));
            out.push(hex_digit(b % 16));
        } else {
            out.push(b);
        }
        proof {
            lemma_escape_bytes_push(s@.subrange(0, i as int), s@[i as int]);
            assert(s@.subrange(0, i + 1 as int) =~= s@.subrange(0, i as int).push(s@[i as int]));
            assert(out@ =~= spec_escape_bytes(s@.subrange(0, i as int)) + spec_escape_byte(
                s@[i as int],
            ));
        }
        i = i + 1;
    }
    proof {
        assert(s@.subrange(0, s@.len() as int) =~= s@);
    }
    out
}

/// Reads an escaped JSON string body back into the bytes it denotes.
pub fn unescape_json_bytes(s: &[u8]) -> (out: Vec<u8>)
    ensures
        out@ == spec_unescape_bytes(s@),
{
    let mut out: Vec<u8> = Vec::new();
    let mut i: usize = 0;
    proof {
        assert(s@.skip(0) =~= s@);
        assert(Seq::<u8>::empty() + spec_unescape_bytes(s@) =~= spec_unescape_bytes(s@));
    }
    while i < s.len()
        invariant
            i <= s@.len(),
            spec_unescape_bytes(s@) == out@ + spec_unescape_bytes(s@.skip(i as int)),
        decreases s@.len() - i,
    {
        let ghost pre = s@.skip(i as int);
        let b = s[i];
        if b == 92 {
            if s.len() - i >= 2 && s[i + 1] == 117 {
                if s.len() - i >= 6 {
                    let h1 = hex_val(s[i + 4]);
                    let h2 = hex_val(s[i + 5]);
                    out.push(h1 * 16 + h2);
                    proof {
                        assert(pre.skip(6) =~= s@.skip(i + 6));
                        assert(spec_unescape_bytes(pre) =~= seq![(spec_hex_val(pre[4]) * 16
                            + spec_hex_val(pre[5])) as u8] + spec_unescape_bytes(s@.skip(i + 6)));
                    }
                    i = i + 6;
                } else {
                    proof {
                        assert(spec_unescape_bytes(pre) =~= Seq::<u8>::empty());
                        assert(spec_unescape_bytes(s@.skip(s@.len() as int)) =~= Seq::<
                            u8,
                        >::empty());
                    }
                    i = s.len();
                }
            } else if s.len() - i >= 2 {
                out.push(s[i + 1]);
                proof {
                    assert(pre.skip(2) =~= s@.skip(i + 2));
                    assert(spec_unescape_bytes(pre) =~= seq![pre[1]] + spec_unescape_bytes(
                        s@.skip(i + 2),
                    ));
                }
                i = i + 2;
            } else {
                proof {
                    assert(spec_unescape_bytes(pre) =~= Seq::<u8>::empty());
                }
                i = i + 1;
            }
        } else {
            out.push(b);
            proof {
                assert(pre.drop_first() =~= s@.skip(i + 1));
                assert(spec_unescape_bytes(pre) =~= seq![pre.first()] + spec_unescape_bytes(
                    s@.skip(i + 1),
                ));
            }
            i = i + 1;
        }
    }
    proof {
        assert(s@.skip(s@.len() as int) =~= Seq::<u8>::empty());
    }
    out
}

/// The decimal digits of a number, most significant first, with no sign and
/// no leading zero (a single `0` for zero itself).
pub open spec fn spec_dec_digits(n: nat) -> Seq<u8>
    decreases n,
{
    if n < 10 {
        seq![(48 + n) as u8]
    } else {
        spec_dec_digits(n / 10) + seq![(48 + n % 10) as u8]
    }
}

/// Like [`spec_dec_digits`], but empty at zero; the shape a digit-collecting
/// loop maintains while it still has high digits to emit.
pub open spec fn spec_dec_digits0(n: nat) -> Seq<u8>
    decreases n,
{
    if n == 0 {
        Seq::empty()
    } else {
        spec_dec_digits0(n / 10) + seq![(48 + n % 10) as u8]
    }
}

/// For a positive number the two digit readings agree.
pub proof fn lemma_dec_digits0_eq(n: nat)
    requires
        n > 0,
    ensures
        spec_dec_digits0(n) == spec_dec_digits(n),
    decreases n,
{
    if n < 10 {
        assert(n / 10 == 0);
        assert(spec_dec_digits0(n / 10) =~= Seq::<u8>::empty());
        assert(spec_dec_digits0(n) =~= spec_dec_digits(n));
    } else {
        lemma_dec_digits0_eq(n / 10);
    }
}

/// Renders a number as its decimal digits.
pub fn u64_to_dec(n: u64) -> (out: Vec<u8>)
    ensures
        out@ == spec_dec_digits(n as nat),
{
    if n == 0 {
        let mut out: Vec<u8> = Vec::new();
        out.push(48);
        proof {
            assert(out@ =~= spec_dec_digits(0));
        }
        return out;
    }
    let mut rev: Vec<u8> = Vec::new();
    let mut m = n;
    while m != 0
        invariant
            spec_dec_digits0(n as nat) == spec_dec_digits0(m as nat) + rev@.reverse(),
        decreases m,
    {
        let ghost old_rev = rev@;
        let d: u8 = 48 + (m % 10) as u8;
        rev.push(d);
        proof {
            assert(rev@.reverse() =~= seq![d] + old_rev.reverse());
            assert(spec_dec_digits0(m as nat) =~= spec_dec_digits0((m / 10) as nat) + seq![d]);
            assert(spec_dec_digits0((m / 10) as nat) + (seq![d] + old_rev.reverse())
                =~= (spec_dec_digits0((m / 10) as nat) + seq![d]) + old_rev.reverse());
        }
        m = m / 10;
    }
    let mut out: Vec<u8> = Vec::new();
    let mut j = rev.len();
    while j > 0
        invariant
            j <= rev@.len(),
            out@.len() == rev@.len() - j,
            forall|k: int| 0 <= k < out@.len() ==> out@[k] == rev@[rev@.len() - 1 - k],
        decreases j,
    {
        j = j - 1;
        out.push(rev[j]);
    }
    proof {
        assert(out@ =~= rev@.reverse());
        lemma_dec_digits0_eq(n as nat);
        assert(spec_dec_digits0(0) =~= Seq::<u8>::empty());
        assert(Seq::<u8>::empty() + rev@.reverse() =~= rev@.reverse());
    }
    out
}

/// One outbound control event, before framing: the positional array's code,
/// its already-serialized JSON payload, and the timestamp field.
pub struct WireEvent {
    /// The remote service's numeric event code.
    pub code: u64,
    /// The payload as serialized JSON, embedded verbatim in the frame.
    pub payload: Vec<u8>,
    /// Milliseconds timestamp; the remote service only requires an integer.
    pub timestamp_millis: u64,
}

/// The text frame a wire event is sent as: `[code,payload,timestampMillis]`.
pub open spec fn spec_wire_frame(code: nat, payload: Seq<u8>, ts: nat) -> Seq<u8> {
    seq![91u8] + spec_dec_digits(code) + seq![44u8] + payload + seq![44u8] + spec_dec_digits(ts)
        + seq![93u8]
}

/// The payload of an add-video event: the JSON object `{"src":<id>}`.
pub open spec fn spec_add_video_payload(src: Seq<u8>) -> Seq<u8> {
    "{\"src\":\"".spec_bytes() + spec_escape_bytes(src) + "\"}".spec_bytes()
}

/// The payload of a rename event: the new name as a JSON string.
pub open spec fn spec_string_payload(s: Seq<u8>) -> Seq<u8> {
    seq![34u8] + spec_escape_bytes(s) + seq![34u8]
}

/// Appends a byte slice to a buffer.
pub fn push_bytes(out: &mut Vec<u8>, s: &[u8])
    ensures
        final(out)@ == old(out)@ + s@,
{
    let mut tmp = slice_to_vec(s);
    out.append(&mut tmp);
}

/// Builds the add-video event for one video id.
pub fn encode_add_video(video_id: &str, timestamp_millis: u64) -> (ev: WireEvent)
    ensures
        ev.code == ADD_VIDEO_CODE,
        ev.payload@ == spec_add_video_payload(video_id.spec_bytes()),
        ev.timestamp_millis == timestamp_millis,
{
    let mut payload: Vec<u8> = Vec::new();
    push_bytes(&mut payload, "{\"src\":\"".as_bytes());
    let mut esc = escape_json_bytes(video_id.as_bytes());
    payload.append(&mut esc);
    push_bytes(&mut payload, "\"}".as_bytes());
    WireEvent { code: ADD_VIDEO_CODE, payload, timestamp_millis }
}

/// Builds the rename event for one user name.
pub fn encode_rename(name: &str, timestamp_millis: u64) -> (ev: WireEvent)
    ensures
        ev.code == RENAME_CODE,
        ev.payload@ == spec_string_payload(name.spec_bytes()),
        ev.timestamp_millis == timestamp_millis,
{
    let mut payload: Vec<u8> = Vec::new();
    payload.push(34);
    let mut esc = escape_json_bytes(name.as_bytes());
    payload.append(&mut esc);
    payload.push(34);
    proof {
        assert(payload@ =~= spec_string_payload(name.spec_bytes()));
    }
    WireEvent { code: RENAME_CODE, payload, timestamp_millis }
}

/// Serializes an event into the single text frame that goes on the wire.
pub fn serialize_event(ev: &WireEvent) -> (out: Vec<u8>)
    ensures
        out@ == spec_wire_frame(ev.code as nat, ev.payload@, ev.timestamp_millis as nat),
{
    let mut out: Vec<u8> = Vec::new();
    out.push(91);
    let mut code = u64_to_dec(ev.code);
    out.append(&mut code);
    out.push(44);
    push_bytes(&mut out, ev.payload.as_slice());
    out.push(44);
    let mut ts = u64_to_dec(ev.timestamp_millis);
    out.append(&mut ts);
    out.push(93);
    proof {
        assert(out@ =~= spec_wire_frame(
            ev.code as nat,
            ev.payload@,
            ev.timestamp_millis as nat,
        ));
    }
    out
}

} // verus!
