//! Decisions of the video mirroring pass.
//!
//! The sign-on handshake with the external video provider is plain
//! I/O and lives in the shell; what is decided here is pure: which
//! stream variant to download, the addresses of the playlist and media
//! files, the local file name, and the recording's start time, which
//! arrives as milliseconds wrapped in a `/Date(...)/` envelope.

use vstd::prelude::*;

use chrono::TimeZone;

use crate::text::{digits_end, first_match_from, is_digit, matches_at};

verus! {

/// The index the download picks from a master playlist: the variant
/// with the highest bandwidth, the last such when tied.
pub fn max_bandwidth_index(bandwidths: &Vec<u64>) -> (r: Option<usize>)
    ensures
        r is Some <==> bandwidths@.len() >= 1,
        r matches Some(i) ==> {
            &&& i < bandwidths@.len()
            &&& forall|k: int| 0 <= k < bandwidths@.len() ==> bandwidths@[k] <= bandwidths@[i as int]
            &&& forall|k: int| i < k < bandwidths@.len() ==> bandwidths@[k] < bandwidths@[i as int]
        },
{
    let n = bandwidths.len();
    if n == 0 {
        return None;
    }
    let mut best: usize = 0;
    let mut j: usize = 1;
    while j < n
        invariant
            0 <= best < j <= n,
            n == bandwidths@.len(),
            forall|k: int| 0 <= k < j ==> bandwidths@[k] <= bandwidths@[best as int],
            forall|k: int| best < k < j ==> bandwidths@[k] < bandwidths@[best as int],
        decreases n - j,
    {
        if bandwidths[j] >= bandwidths[best] {
            best = j;
        }
        j = j + 1;
    }
    Some(best)
}

/// The address under which one recording's streams live.
pub fn session_base_url(host: &str, session_id: &str, delivery_id: &str, viewer_file_id: &str) -> (r:
    String)
    ensures
        r@ == "https://"@ + host@ + "/sessions/"@ + session_id@ + "/"@ + delivery_id@ + "-"@
            + viewer_file_id@ + ".hls"@,
{
    let mut s = "https://".to_owned();
    s.append(host);
    s.append("/sessions/");
    s.append(session_id);
    s.append("/");
    s.append(delivery_id);
    s.append("-");
    s.append(viewer_file_id);
    s.append(".hls");
    s
}

/// The master playlist of a recording.
pub fn master_playlist_url(base: &str) -> (r: String)
    ensures
        r@ == base@ + "/master.m3u8"@,
{
    let mut s = base.to_owned();
    s.append("/master.m3u8");
    s
}

/// One file under a recording's stream directory.
pub fn stream_file_url(base: &str, rel: &str) -> (r: String)
    ensures
        r@ == base@ + "/"@ + rel@,
{
    let mut s = base.to_owned();
    s.append("/");
    s.append(rel);
    s
}

/// A variant URI's first segment: the directory the media files live
/// under.
pub open spec fn first_segment_spec(s: Seq<char>) -> Seq<char> {
    match first_match_from(s, seq!['/'], 0) {
        None => s,
        Some(i) => s.subrange(0, i),
    }
}

/// Cut a variant URI at its first separator.
pub fn uri_first_segment(s: &str) -> (r: String)
    ensures
        r@ == first_segment_spec(s@),
{
    proof {
        reveal_strlit("/");
        assert("/"@ =~= seq!['/']);
    }
    let n = s.unicode_len();
    match crate::text::find_sub(s, "/") {
        None => {
            proof {
                assert(s@.subrange(0, n as int) =~= s@);
            }
            s.substring_char(0, n).to_owned()
        },
        Some(i) => s.substring_char(0, i).to_owned(),
    }
}

/// The extension of a media file name: what follows the last dot of its
/// last path segment, empty when there is none or the dot only leads a
/// hidden name.
pub open spec fn extension_spec(s: Seq<char>) -> Seq<char> {
    let seg = match crate::text::last_index_of(s, '/') {
        None => s,
        Some(i) => s.subrange(i + 1, s.len() as int),
    };
    match crate::text::last_index_of(seg, '.') {
        None => Seq::empty(),
        Some(d) => if d == 0 {
            Seq::empty()
        } else {
            seg.subrange(d + 1, seg.len() as int)
        },
    }
}

/// The extension of a media file name.
pub fn extension_of(s: &str) -> (r: String)
    ensures
        r@ == extension_spec(s@),
{
    let n = s.unicode_len();
    let seg = match crate::text::rfind_char(s, '/') {
        None => s.substring_char(0, n).to_owned(),
        Some(i) => s.substring_char(i + 1, n).to_owned(),
    };
    proof {
        assert(s@.subrange(0, n as int) =~= s@);
    }
    let m = seg.as_str().unicode_len();
    match crate::text::rfind_char(seg.as_str(), '.') {
        None => String::new(),
        Some(d) => {
            if d == 0 {
                String::new()
            } else {
                seg.as_str().substring_char(d + 1, m).to_owned()
            }
        },
    }
}

/// The local file name for a recording: its session name, carrying the
/// media extension when one is known.
pub fn video_file_name(session_name: &str, ext: &str) -> (r: String)
    ensures
        ext@.len() == 0 ==> r@ == session_name@,
        ext@.len() >= 1 ==> r@ == session_name@ + "."@ + ext@,
{
    if ext.unicode_len() == 0 {
        session_name.to_owned()
    } else {
        let mut s = session_name.to_owned();
        s.append(".");
        s.append(ext);
        s
    }
}

/// The envelope that carries a start time in milliseconds.
pub open spec fn date_key() -> Seq<char> {
    seq!['/', 'D', 'a', 't', 'e', '(']
}

/// Whether a `/Date(...)/` envelope opens at position `i` with at
/// least one digit and its closing parenthesis.
pub open spec fn date_at(s: Seq<char>, i: int) -> bool {
    let e = digits_end(s, i + 6);
    &&& matches_at(s, date_key(), i)
    &&& e > i + 6
    &&& e < s.len()
    &&& s[e] == ')'
}

/// The first position where a `/Date(...)/` envelope opens.
pub open spec fn first_date_from(s: Seq<char>, from: int) -> Option<int>
    decreases s.len() - from,
    when 0 <= from <= s.len()
{
    if from >= s.len() {
        None
    } else if date_at(s, from) {
        Some(from)
    } else {
        first_date_from(s, from + 1)
    }
}

/// The digits inside the first `/Date(...)/` envelope.
pub open spec fn date_digits_spec(s: Seq<char>) -> Option<Seq<char>> {
    match first_date_from(s, 0) {
        None => None,
        Some(i) => Some(s.subrange(i + 6, digits_end(s, i + 6))),
    }
}

proof fn lemma_date_skip(s: Seq<char>, from: int, to: int)
    requires
        0 <= from <= to <= s.len(),
        forall|j: int| from <= j < to ==> !matches_at(s, date_key(), j),
    ensures
        first_date_from(s, from) == first_date_from(s, to),
    decreases to - from,
{
    if from < to {
        assert(!date_at(s, from));
        lemma_date_skip(s, from + 1, to);
    }
}

proof fn lemma_date_none_tail(s: Seq<char>, from: int)
    requires
        0 <= from <= s.len(),
        forall|j: int| from <= j ==> !matches_at(s, date_key(), j),
    ensures
        first_date_from(s, from) is None,
    decreases s.len() - from,
{
    if from < s.len() {
        assert(!date_at(s, from));
        lemma_date_none_tail(s, from + 1);
    }
}

/// Extract the digits of the first `/Date(...)/` envelope in a start
/// time.
pub fn date_digits(s: &str) -> (r: Option<String>)
    ensures
        match r {
            Some(d) => date_digits_spec(s@) == Some(d@),
            None => date_digits_spec(s@) is None,
        },
{
    let n = s.unicode_len();
    let mut from: usize = 0;
    loop
        invariant
            0 <= from <= n,
            n == s@.len(),
            first_date_from(s@, 0) == first_date_from(s@, from as int),
        decreases n - from,
    {
        proof {
            reveal_strlit("/Date(");
            assert("/Date("@ =~= date_key());
        }
        let i = match crate::text::find_sub_from(s, "/Date(", from) {
            None => {
                proof {
                    crate::text::lemma_none_no_match(s@, date_key(), from as int);
                    lemma_date_none_tail(s@, from as int);
                }
                return None;
            },
            Some(i) => i,
        };
        proof {
            crate::text::lemma_no_match_between(s@, date_key(), from as int, i as int);
            lemma_date_skip(s@, from as int, i as int);
        }
        let e = crate::text::scan_digits(s, i + 6);
        if e > i + 6 && e < n && s.get_char(e) == ')' {
            proof {
                assert(date_at(s@, i as int));
            }
            return Some(s.substring_char(i + 6, e).to_owned());
        }
        proof {
            assert(!date_at(s@, i as int));
        }
        from = i + 1;
    }
}

/// The number a digit string denotes.
pub open spec fn dec_value(s: Seq<char>) -> int
    decreases s.len(),
{
    if s.len() == 0 {
        0
    } else {
        dec_value(s.drop_last()) * 10 + (s.last() as int - '0' as int)
    }
}

proof fn lemma_dec_value_nonneg(s: Seq<char>)
    requires
        forall|k: int| 0 <= k < s.len() ==> is_digit(s[k]),
    ensures
        dec_value(s) >= 0,
    decreases s.len(),
{
    if s.len() > 0 {
        lemma_dec_value_nonneg(s.drop_last());
    }
}

proof fn lemma_dec_value_monotone(s: Seq<char>, j: int)
    requires
        0 <= j <= s.len(),
        forall|k: int| 0 <= k < s.len() ==> is_digit(s[k]),
    ensures
        dec_value(s) >= dec_value(s.take(j)),
    decreases s.len() - j,
{
    if j < s.len() {
        lemma_dec_value_monotone(s, j + 1);
        assert(s.take(j + 1).drop_last() =~= s.take(j));
        assert(s.take(j + 1).last() == s[j]);
        lemma_dec_value_nonneg(s.take(j));
    } else {
        assert(s.take(j) =~= s);
    }
}

/// Parse a non-empty digit string into a signed 64-bit number; refused
/// when it is empty, holds a non-digit, or exceeds the range.
pub fn parse_i64_digits(s: &str) -> (r: Option<i64>)
    ensures
        r is Some <==> (s@.len() >= 1 && (forall|k: int| 0 <= k < s@.len() ==> is_digit(s@[k]))
            && dec_value(s@) <= i64::MAX),
        r matches Some(v) ==> v == dec_value(s@) && v >= 0,
{
    let n = s.unicode_len();
    if n == 0 {
        return None;
    }
    let mut acc: i64 = 0;
    let mut k: usize = 0;
    proof {
        assert(s@.take(0) =~= Seq::<char>::empty());
    }
    while k < n
        invariant
            0 <= k <= n,
            n == s@.len(),
            forall|j: int| 0 <= j < k ==> is_digit(s@[j]),
            acc == dec_value(s@.take(k as int)),
            acc >= 0,
        decreases n - k,
    {
        let c = s.get_char(k);
        if !('0' <= c && c <= '9') {
            return None;
        }
        let d: i64 = (c as u32 as i64) - ('0' as u32 as i64);
        proof {
            assert(s@.take(k as int + 1).drop_last() =~= s@.take(k as int));
        }
        let next = match acc.checked_mul(10) {
            Some(t) => t.checked_add(d),
            None => None,
        };
        match next {
            Some(v) => {
                acc = v;
            },
            None => {
                proof {
                    assert(dec_value(s@.take(k as int + 1)) > i64::MAX);
                    if forall|j: int| 0 <= j < s@.len() ==> is_digit(s@[j]) {
                        lemma_dec_value_monotone(s@, k as int + 1);
                    }
                }
                return None;
            },
        }
        k = k + 1;
    }
    proof {
        assert(s@.take(n as int) =~= s@);
    }
    Some(acc)
}

/// The start time of a recording, in milliseconds, out of its
/// `/Date(...)/` envelope; refused when the envelope is absent or the
/// number does not fit.
pub fn start_time_millis(s: &str) -> (r: Option<i64>)
    ensures
        r matches Some(v) ==> {
            &&& date_digits_spec(s@) is Some
            &&& v == dec_value(date_digits_spec(s@)->Some_0)
            &&& v >= 0
        },
        r is None ==> (date_digits_spec(s@) is None || dec_value(date_digits_spec(s@)->Some_0)
            > i64::MAX),
{
    let digits = match date_digits(s) {
        None => return None,
        Some(d) => d,
    };
    proof {
        lemma_date_digits_are_digits(s@);
    }
    parse_i64_digits(digits.as_str())
}

proof fn lemma_digits_end_digits(s: Seq<char>, i: int, j: int)
    requires
        0 <= i <= s.len(),
        i <= j < digits_end(s, i),
    ensures
        is_digit(s[j]),
    decreases s.len() - i,
{
    if i < s.len() && is_digit(s[i]) && j > i {
        lemma_digits_end_digits(s, i + 1, j);
    }
}

proof fn lemma_date_digits_are_digits(s: Seq<char>)
    requires
        date_digits_spec(s) is Some,
    ensures
        forall|k: int|
            0 <= k < date_digits_spec(s)->Some_0.len() ==> is_digit(date_digits_spec(s)->Some_0[k]),
        date_digits_spec(s)->Some_0.len() >= 1,
{
    let i = first_date_from(s, 0)->Some_0;
    lemma_first_date_found(s, 0);
    let e = digits_end(s, i + 6);
    assert forall|k: int| 0 <= k < date_digits_spec(s)->Some_0.len() implies is_digit(
        date_digits_spec(s)->Some_0[k],
    ) by {
        lemma_digits_end_digits(s, i + 6, i + 6 + k);
    }
}

proof fn lemma_first_date_found(s: Seq<char>, from: int)
    requires
        0 <= from <= s.len(),
        first_date_from(s, from) is Some,
    ensures
        date_at(s, first_date_from(s, from)->Some_0),
        from <= first_date_from(s, from)->Some_0 < s.len(),
    decreases s.len() - from,
{
    if from < s.len() && !date_at(s, from) {
        lemma_first_date_found(s, from + 1);
    }
}

/// What rendering an epoch instant yields: the instant at these
/// milliseconds in the fixed reference time zone as ISO-8601 text, or
/// nothing when the instant is out of the calendar's range. A function
/// of the milliseconds alone.
pub uninterp spec fn rfc3339_of_millis(ms: i64) -> Option<Seq<char>>;

/// Relies on chrono's `Utc.timestamp_millis_opt` and `to_rfc3339`: the
/// rendered text depends on the milliseconds alone.
#[verifier::external_body]
fn millis_to_rfc3339(ms: i64) -> (r: Option<String>)
    ensures
        match r {
            Some(t) => rfc3339_of_millis(ms) == Some(t@),
            None => rfc3339_of_millis(ms) is None,
        },
{
    match chrono::Utc.timestamp_millis_opt(ms).earliest() {
        Some(dt) => Some(dt.to_rfc3339()),
        None => None,
    }
}

/// The ISO-8601 timestamp for a recording: the milliseconds out of the
/// start time's envelope, rendered in the fixed reference time zone;
/// nothing when the envelope is absent, the number does not fit, or
/// the instant is out of the calendar's range.
pub fn video_timestamp(start_time: &str) -> (r: Option<String>)
    ensures
        r matches Some(t) ==> {
            &&& date_digits_spec(start_time@) is Some
            &&& dec_value(date_digits_spec(start_time@)->Some_0) <= i64::MAX
            &&& rfc3339_of_millis(dec_value(date_digits_spec(start_time@)->Some_0) as i64)
                == Some(t@)
        },
        r is None ==> (date_digits_spec(start_time@) is None || dec_value(
            date_digits_spec(start_time@)->Some_0,
        ) > i64::MAX || rfc3339_of_millis(
            dec_value(date_digits_spec(start_time@)->Some_0) as i64,
        ) is None),
{
    match start_time_millis(start_time) {
        None => None,
        Some(ms) => millis_to_rfc3339(ms),
    }
}

} // verus!
