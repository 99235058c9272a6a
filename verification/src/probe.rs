//! Interpreting the metadata probe's output.
//!
//! A companion probe queries duration, sample rate and channel count for a
//! file without producing PCM: it prints a JSON document holding a format
//! section and a stream list. The probe process runs outside the engine; its
//! output text is interpreted here. The JSON reading goes through serde_json
//! behind trusted items; the number parsing on the extracted text is
//! verified against an exact decimal grammar.

use vstd::prelude::*;

verus! {

/// Duration, sample rate and channel count of a media file, as the probe
/// reports them.
#[derive(Debug, Clone)]
pub struct MediaMetadata {
    pub duration_ms: u64,
    pub sample_rate: u32,
    pub channels: u16,
}

/// An ASCII decimal digit.
pub open spec fn is_digit(b: u8) -> bool {
    48 <= b <= 57
}

/// Every byte of `s` is a decimal digit.
pub open spec fn all_digits(s: Seq<u8>) -> bool {
    forall|i: int| 0 <= i < s.len() ==> is_digit(s[i])
}

/// The number written by a run of decimal digits.
pub open spec fn digits_val(s: Seq<u8>) -> int
    decreases s.len(),
{
    if s.len() == 0 {
        0
    } else {
        digits_val(s.drop_last()) * 10 + (s.last() - 48)
    }
}

/// A run of digits denotes a nonnegative number.
pub proof fn lemma_digits_val_nonneg(s: Seq<u8>)
    requires
        all_digits(s),
    ensures
        digits_val(s) >= 0,
    decreases s.len(),
{
    if s.len() > 0 {
        assert(all_digits(s.drop_last()));
        lemma_digits_val_nonneg(s.drop_last());
        assert(digits_val(s.drop_last()) * 10 >= 0) by (nonlinear_arith)
            requires
                digits_val(s.drop_last()) >= 0,
        ;
    }
}

/// Extending a run of digits never shrinks its value.
pub proof fn lemma_digits_val_prefix_le(s: Seq<u8>, i: int)
    requires
        all_digits(s),
        0 <= i <= s.len(),
    ensures
        digits_val(s.take(i)) <= digits_val(s),
    decreases s.len() - i,
{
    if i < s.len() {
        lemma_digits_val_prefix_le(s, i + 1);
        assert(s.take(i + 1).drop_last() =~= s.take(i));
        assert(all_digits(s.take(i)));
        lemma_digits_val_nonneg(s.take(i));
        assert(digits_val(s.take(i)) <= digits_val(s.take(i)) * 10 + (s.take(i + 1).last() - 48))
            by (nonlinear_arith)
            requires
                digits_val(s.take(i)) >= 0,
                is_digit(s.take(i + 1).last()),
        ;
    } else {
        assert(s.take(i) =~= s);
    }
}

/// Parse a run of decimal digits. Returns the denoted number exactly when
/// the text is a nonempty run of digits whose value fits in `u64`.
pub fn parse_u64_digits(bytes: &Vec<u8>) -> (r: Option<u64>)
    ensures
        r is Some <==> (bytes@.len() > 0 && all_digits(bytes@) && digits_val(bytes@)
            <= u64::MAX as int),
        r matches Some(v) ==> v as int == digits_val(bytes@),
{
    if bytes.len() == 0 {
        return None;
    }
    let mut acc: u64 = 0;
    let mut i: usize = 0;
    while i < bytes.len()
        invariant
            0 <= i <= bytes@.len(),
            all_digits(bytes@.take(i as int)),
            acc as int == digits_val(bytes@.take(i as int)),
        decreases bytes@.len() - i,
    {
        let b = bytes[i];
        if b < 48 || b > 57 {
            return None;
        }
        let d: u64 = (b - 48) as u64;
        proof {
            assert(bytes@.take(i + 1).drop_last() =~= bytes@.take(i as int));
        }
        let shifted = match acc.checked_mul(10) {
            Some(x) => x,
            None => {
                proof {
                    assert(digits_val(bytes@.take(i + 1)) > u64::MAX as int) by (nonlinear_arith)
                        requires
                            digits_val(bytes@.take(i + 1)) == acc as int * 10 + d,
                            acc as int * 10 > u64::MAX as int,
                            d >= 0,
                    ;
                    if all_digits(bytes@) {
                        lemma_digits_val_prefix_le(bytes@, i + 1);
                    }
                }
                return None;
            },
        };
        let total = match shifted.checked_add(d) {
            Some(x) => x,
            None => {
                proof {
                    if all_digits(bytes@) {
                        lemma_digits_val_prefix_le(bytes@, i + 1);
                    }
                }
                return None;
            },
        };
        acc = total;
        i = i + 1;
    }
    proof {
        assert(bytes@.take(bytes@.len() as int) =~= bytes@);
    }
    Some(acc)
}

/// Index of the first `.` in `s`, or the length of `s` when there is none.
pub open spec fn first_dot(s: Seq<u8>) -> int
    decreases s.len(),
{
    if s.len() == 0 {
        0
    } else if s[0] == 46 {
        0
    } else {
        1 + first_dot(s.skip(1))
    }
}

fn find_dot(bytes: &Vec<u8>) -> (r: usize)
    ensures
        r == first_dot(bytes@),
        r <= bytes@.len(),
{
    let mut i: usize = 0;
    proof {
        assert(bytes@.skip(0) =~= bytes@);
    }
    while i < bytes.len()
        invariant
            0 <= i <= bytes@.len(),
            first_dot(bytes@) == i + first_dot(bytes@.skip(i as int)),
        decreases bytes@.len() - i,
    {
        proof {
            assert(bytes@.skip(i as int)[0] == bytes@[i as int]);
            assert(bytes@.skip(i as int).skip(1) =~= bytes@.skip(i + 1));
        }
        if bytes[i] == 46 {
            return i;
        }
        i = i + 1;
    }
    proof {
        assert(bytes@.skip(bytes@.len() as int) =~= Seq::<u8>::empty());
    }
    i
}

/// Milliseconds written by up to three fractional-second digits (further
/// digits are beyond millisecond precision and ignored).
pub open spec fn frac_ms(fr: Seq<u8>) -> int {
    (if fr.len() >= 1 {
        (fr[0] - 48) * 100
    } else {
        0
    }) + (if fr.len() >= 2 {
        (fr[1] - 48) * 10
    } else {
        0
    }) + (if fr.len() >= 3 {
        fr[2] - 48
    } else {
        0
    })
}

/// The millisecond value of a decimal seconds string `digits[.digits]`:
/// `None` when the text is not of that shape.
pub open spec fn decimal_ms(s: Seq<u8>) -> Option<int> {
    let dot = first_dot(s);
    let ip = s.take(dot);
    let fp = if dot == s.len() {
        Seq::<u8>::empty()
    } else {
        s.skip(dot + 1)
    };
    if ip.len() > 0 && all_digits(ip) && all_digits(fp) {
        Some(digits_val(ip) * 1000 + frac_ms(fp))
    } else {
        None
    }
}

/// Parse a decimal seconds string (as the probe prints durations) into
/// milliseconds, truncating below the millisecond. Text that is not a plain
/// decimal, or whose value exceeds `u64`, counts as zero, as an unreadable
/// duration does.
#[verifier::loop_isolation(false)]
pub fn parse_duration_ms(bytes: &Vec<u8>) -> (r: u64)
    ensures
        r as int == (match decimal_ms(bytes@) {
            Some(v) => if v <= u64::MAX as int {
                v
            } else {
                0
            },
            None => 0,
        }),
{
    let dot = find_dot(bytes);
    let mut ip: Vec<u8> = Vec::new();
    let mut i: usize = 0;
    while i < dot
        invariant
            0 <= i <= dot <= bytes@.len(),
            ip@ =~= bytes@.take(dot as int).take(i as int),
        decreases dot - i,
    {
        ip.push(bytes[i]);
        i = i + 1;
    }
    proof {
        assert(bytes@.take(dot as int).take(dot as int) =~= bytes@.take(dot as int));
    }
    let mut fp: Vec<u8> = Vec::new();
    if dot < bytes.len() {
        let mut j: usize = dot + 1;
        while j < bytes.len()
            invariant
                dot + 1 <= j <= bytes@.len(),
                fp@ =~= bytes@.skip(dot + 1).take(j - dot - 1),
            decreases bytes@.len() - j,
        {
            fp.push(bytes[j]);
            j = j + 1;
        }
        proof {
            assert(bytes@.skip(dot + 1).take(bytes@.len() - dot - 1) =~= bytes@.skip(dot + 1));
        }
    }
    let whole: u64 = match parse_u64_digits(&ip) {
        Some(v) => v,
        None => {
            proof {
                if ip@.len() > 0 && all_digits(ip@) {
                    // The whole-seconds value alone exceeds `u64`, so the
                    // millisecond value does too, whatever the fraction says.
                    let ghost fps = if dot == bytes@.len() {
                        Seq::<u8>::empty()
                    } else {
                        bytes@.skip(dot + 1)
                    };
                    assert(frac_ms(fps) >= -5328);
                    assert(digits_val(ip@) * 1000 + frac_ms(fps) > u64::MAX as int)
                        by (nonlinear_arith)
                        requires
                            digits_val(ip@) > u64::MAX as int,
                            frac_ms(fps) >= -5328,
                    ;
                }
            }
            return 0;
        },
    };
    let mut frac: u64 = 0;
    let mut k: usize = 0;
    let mut scale: u64 = 100;
    while k < fp.len()
        invariant
            0 <= k <= fp@.len(),
            all_digits(fp@.take(k as int)),
            k == 0 ==> frac == 0 && scale == 100,
            k == 1 ==> frac == (fp@[0] - 48) * 100 && scale == 10,
            k == 2 ==> frac == (fp@[0] - 48) * 100 + (fp@[1] - 48) * 10 && scale == 1,
            k >= 3 ==> frac as int == frac_ms(fp@) && scale == 0,
            frac <= 999,
        decreases fp@.len() - k,
    {
        let b = fp[k];
        if b < 48 || b > 57 {
            return 0;
        }
        if k < 3 {
            frac = frac + (b - 48) as u64 * scale;
            scale = scale / 10;
        }
        k = k + 1;
    }
    proof {
        assert(fp@.take(fp@.len() as int) =~= fp@);
        if fp@.len() == 0 {
            assert(frac_ms(fp@) == 0);
        }
    }
    let scaled = match whole.checked_mul(1000) {
        Some(x) => x,
        None => {
            proof {
                lemma_digits_val_nonneg(ip@);
                assert(digits_val(ip@) * 1000 + frac_ms(fp@) > u64::MAX as int)
                    by (nonlinear_arith)
                    requires
                        digits_val(ip@) * 1000 > u64::MAX as int,
                        frac_ms(fp@) >= 0,
                ;
            }
            return 0;
        },
    };
    match scaled.checked_add(frac) {
        Some(x) => x,
        None => 0,
    }
}

/// Parse a decimal sample-rate string; anything unreadable falls back to the
/// default rate of 44100, as the probe's caller always did.
pub fn parse_sample_rate(bytes: &Vec<u8>) -> (r: u32)
    ensures
        r as int == if bytes@.len() > 0 && all_digits(bytes@) && digits_val(bytes@)
            <= u32::MAX as int {
            digits_val(bytes@)
        } else {
            44100
        },
{
    match parse_u64_digits(bytes) {
        Some(v) => {
            if v <= u32::MAX as u64 {
                v as u32
            } else {
                44100
            }
        },
        None => 44100,
    }
}

/// The UTF-8 bytes of the stream kind the engine is after.
pub open spec fn audio_codec_bytes() -> Seq<u8> {
    seq![97u8, 117u8, 100u8, 105u8, 111u8]
}

fn is_audio_codec(b: &Vec<u8>) -> (r: bool)
    ensures
        r == (b@ == audio_codec_bytes()),
{
    let r = b.len() == 5 && b[0] == 97 && b[1] == 117 && b[2] == 100 && b[3] == 105 && b[4] == 111;
    proof {
        if r {
            assert(b@ =~= audio_codec_bytes());
        }
    }
    r
}

/// The fields the engine reads from one probed stream, as plain values.
pub struct StreamFields {
    /// The stream kind, as UTF-8 bytes, where the stream named one.
    pub codec_type: Option<Vec<u8>>,
    /// The sample-rate text, where the stream carried one.
    pub sample_rate: Option<Vec<u8>>,
    /// The channel count, where the stream carried a representable number.
    pub channels: Option<u64>,
}

/// The stream describes audio.
pub open spec fn is_audio_stream(s: StreamFields) -> bool {
    match s.codec_type {
        Some(b) => b@ == audio_codec_bytes(),
        None => false,
    }
}

/// The sample rate a stream yields: its decimal text when readable as a
/// `u32`, the default rate of 44100 otherwise.
pub open spec fn spec_rate_of(s: StreamFields) -> int {
    match s.sample_rate {
        Some(b) => if b@.len() > 0 && all_digits(b@) && digits_val(b@) <= u32::MAX as int {
            digits_val(b@)
        } else {
            44100
        },
        None => 44100,
    }
}

/// The channel count a stream yields: its number truncated to `u16`, or the
/// default of 2 channels.
pub open spec fn spec_channels_of(s: StreamFields) -> u16 {
    match s.channels {
        Some(c) => c as u16,
        None => 2,
    }
}

/// The duration text's millisecond value; missing or unreadable text counts
/// as zero.
pub open spec fn spec_duration_of(d: Option<Seq<u8>>) -> int {
    match d {
        Some(b) => match decimal_ms(b) {
            Some(v) => if v <= u64::MAX as int {
                v
            } else {
                0
            },
            None => 0,
        },
        None => 0,
    }
}

/// The bytes of an optional byte text.
pub open spec fn opt_bytes_view(d: Option<Vec<u8>>) -> Option<Seq<u8>> {
    match d {
        Some(b) => Some(b@),
        None => None,
    }
}

/// Whether probe output text is well-formed JSON. serde_json's parse is a
/// function of the text alone.
pub uninterp spec fn probe_text_is_json(text: Seq<char>) -> bool;

/// Whether probe output text is JSON carrying a stream list under `streams`.
pub uninterp spec fn probe_parses(text: Seq<char>) -> bool;

/// The duration text under the format section of probe output that parses.
pub uninterp spec fn probe_duration_of(text: Seq<char>) -> Option<Vec<u8>>;

/// The per-stream fields of probe output that parses, in stream order.
pub uninterp spec fn probe_streams_of(text: Seq<char>) -> Seq<StreamFields>;

/// What the shape of one probe output text is: not JSON at all, JSON without
/// a stream list, or parsable — then with the duration text it holds.
enum ProbeShape {
    NotJson,
    NoStreams,
    Parsed { duration: Option<Vec<u8>> },
}

/// Relies on serde_json's `from_str` and the `Value` accessors `get`,
/// `as_array` and `as_str`: whether the text is JSON with a stream list, and
/// the duration text under its format section — both functions of the text
/// alone.
#[verifier::external_body]
fn extract_probe_shape(text: &str) -> (r: ProbeShape)
    ensures
        (r is NotJson) == !probe_text_is_json(text@),
        (r is NoStreams) == (probe_text_is_json(text@) && !probe_parses(text@)),
        (r matches ProbeShape::Parsed { .. }) == probe_parses(text@),
        r matches ProbeShape::Parsed { duration } ==> duration == probe_duration_of(text@),
{
    let v: serde_json::Value = match serde_json::from_str(text) { Ok(v) => v, Err(_) => return ProbeShape::NotJson };
    if v.get("streams").and_then(|s| s.as_array()).is_none() { return ProbeShape::NoStreams };
    let duration = v.get("format").and_then(|f| f.get("duration")).and_then(|d| d.as_str()).map(|s| s.as_bytes().to_vec());
    ProbeShape::Parsed { duration }
}

/// Relies on serde_json's `from_str` and the `Value` accessors `get`,
/// `as_array`, `as_str` and `as_u64`: the per-stream fields of probe output
/// that parses, a function of the text alone.
#[verifier::external_body]
fn extract_probe_streams(text: &str) -> (r: Vec<StreamFields>)
    ensures
        probe_parses(text@) ==> r@ == probe_streams_of(text@),
{
    let v: serde_json::Value = match serde_json::from_str(text) { Ok(v) => v, Err(_) => return Vec::new() };
    let arr = match v.get("streams").and_then(|s| s.as_array()) { Some(a) => a, None => return Vec::new() };
    arr.iter().map(|s| StreamFields {
        codec_type: s.get("codec_type").and_then(|c| c.as_str()).map(|b| b.as_bytes().to_vec()),
        sample_rate: s.get("sample_rate").and_then(|c| c.as_str()).map(|b| b.as_bytes().to_vec()),
        channels: s.get("channels").and_then(|c| c.as_u64()),
    }).collect()
}

/// Assemble the probe's answer from the extracted fields: duration from the
/// format section, rate and channels from the first audio stream. Fails
/// exactly when no stream describes audio.
#[verifier::loop_isolation(false)]
pub fn interpret_probe(duration: &Option<Vec<u8>>, streams: &Vec<StreamFields>) -> (r: Result<
    MediaMetadata,
    String,
>)
    ensures
        (r is Ok) == (exists|i: int|
            0 <= i < streams@.len() && is_audio_stream(#[trigger] streams@[i])),
        r matches Err(e) ==> e@ == "No audio stream found"@,
        r matches Ok(m) ==> {
            &&& m.duration_ms as int == spec_duration_of(opt_bytes_view(*duration))
            &&& exists|i: int|
                {
                    &&& 0 <= i < streams@.len()
                    &&& is_audio_stream(#[trigger] streams@[i])
                    &&& (forall|j: int| 0 <= j < i ==> !is_audio_stream(#[trigger] streams@[j]))
                    &&& m.sample_rate as int == spec_rate_of(streams@[i])
                    &&& m.channels == spec_channels_of(streams@[i])
                }
        },
{
    let duration_ms: u64 = match duration {
        Some(b) => parse_duration_ms(b),
        None => 0,
    };
    let mut i: usize = 0;
    while i < streams.len()
        invariant
            0 <= i <= streams@.len(),
            forall|j: int| 0 <= j < i ==> !is_audio_stream(#[trigger] streams@[j]),
        decreases streams@.len() - i,
    {
        let s = &streams[i];
        let found = match &s.codec_type {
            Some(b) => is_audio_codec(b),
            None => false,
        };
        if found {
            let sample_rate: u32 = match &s.sample_rate {
                Some(b) => parse_sample_rate(b),
                None => 44100,
            };
            let channels: u16 = match s.channels {
                Some(c) => #[verifier::truncate] (c as u16),
                None => 2,
            };
            proof {
                let gi = i as int;
                assert(0 <= gi < streams@.len() && is_audio_stream(#[trigger] streams@[gi]) && (
                forall|j: int| 0 <= j < gi ==> !is_audio_stream(#[trigger] streams@[j]))
                    && sample_rate as int == spec_rate_of(streams@[gi]) && channels
                    == spec_channels_of(streams@[gi]));
            }
            return Ok(MediaMetadata { duration_ms, sample_rate, channels });
        }
        i = i + 1;
    }
    Err("No audio stream found".to_owned())
}

/// Interpret the probe's JSON output: the duration comes from the format
/// section (an unreadable duration counts as zero), the sample rate and
/// channel count from the first audio stream (falling back to 44100 Hz and
/// 2 channels where a field is unreadable). Succeeds exactly when the text
/// parses to a stream list with an audio stream; each failure names its
/// reason.
pub fn parse_probe_output(text: &str) -> (r: Result<MediaMetadata, String>)
    ensures
        (r is Ok) == (probe_parses(text@) && (exists|i: int|
            0 <= i < probe_streams_of(text@).len() && is_audio_stream(
                #[trigger] probe_streams_of(text@)[i],
            ))),
        !probe_text_is_json(text@) ==> (r matches Err(e) && e@
            == "Failed to parse ffprobe json"@),
        (probe_text_is_json(text@) && !probe_parses(text@)) ==> (r matches Err(e) && e@
            == "No streams found"@),
        (probe_parses(text@) && r is Err) ==> (r matches Err(e) && e@
            == "No audio stream found"@),
        r matches Ok(m) ==> {
            &&& m.duration_ms as int == spec_duration_of(opt_bytes_view(probe_duration_of(text@)))
            &&& exists|i: int|
                {
                    &&& 0 <= i < probe_streams_of(text@).len()
                    &&& is_audio_stream(#[trigger] probe_streams_of(text@)[i])
                    &&& (forall|j: int|
                        0 <= j < i ==> !is_audio_stream(#[trigger] probe_streams_of(text@)[j]))
                    &&& m.sample_rate as int == spec_rate_of(probe_streams_of(text@)[i])
                    &&& m.channels == spec_channels_of(probe_streams_of(text@)[i])
                }
        },
{
    match extract_probe_shape(text) {
        ProbeShape::NotJson => Err("Failed to parse ffprobe json".to_owned()),
        ProbeShape::NoStreams => Err("No streams found".to_owned()),
        ProbeShape::Parsed { duration } => {
            let streams = extract_probe_streams(text);
            interpret_probe(&duration, &streams)
        },
    }
}

} // verus!
