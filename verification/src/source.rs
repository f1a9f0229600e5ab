//! Obtaining frames: source classification, stream metadata, the ordering of
//! pre-extracted frame files, and the cache-backed frame store.
//!
//! The actual decoders run outside this library; everything they decide is
//! handed in as plain values (whether the path exists, the stream's reported
//! rate and duration, decoded RGB frames), and everything the pipeline
//! decides about those values is verified here.

use vstd::multiset::Multiset;
use vstd::prelude::*;

use crate::cache::FrameCache;
use crate::frame::Frame;

verus! {

/// Error kinds of the media pipeline. A missing decoding tool is kept apart
/// from an in-stream decoding failure, so that a misconfigured environment
/// can be told from corrupt media.
#[derive(Debug)]
pub enum ImageError {
    /// The source path does not exist.
    NotFound(String),
    /// No usable video or image stream, or an unrecognised extension.
    UnsupportedFormat(String),
    /// The decoder reported a failure mid-stream.
    DecodingError(String),
    /// The decoding tool or capability is not available.
    MissingDecoder(String),
    /// A filesystem failure during extraction, read or cleanup.
    IoError(String),
}

impl ImageError {
    /// The error's payload: the offending path or the reported message.
    pub fn detail(&self) -> (r: &String)
        ensures
            match self {
                ImageError::NotFound(s) => r@ == s@,
                ImageError::UnsupportedFormat(s) => r@ == s@,
                ImageError::DecodingError(s) => r@ == s@,
                ImageError::MissingDecoder(s) => r@ == s@,
                ImageError::IoError(s) => r@ == s@,
            },
    {
        match self {
            ImageError::NotFound(s) => s,
            ImageError::UnsupportedFormat(s) => s,
            ImageError::DecodingError(s) => s,
            ImageError::MissingDecoder(s) => s,
            ImageError::IoError(s) => s,
        }
    }
}

/// What kind of media a source path names.
#[derive(Debug, Clone, Copy, PartialEq, Eq, Structural)]
pub enum MediaKind {
    StillImage,
    Video,
}

/// ASCII lower-casing of one character; everything but `A ..= Z` is kept.
pub open spec fn lower_char(c: char) -> char {
    match c {
        'A' => 'a',
        'B' => 'b',
        'C' => 'c',
        'D' => 'd',
        'E' => 'e',
        'F' => 'f',
        'G' => 'g',
        'H' => 'h',
        'I' => 'i',
        'J' => 'j',
        'K' => 'k',
        'L' => 'l',
        'M' => 'm',
        'N' => 'n',
        'O' => 'o',
        'P' => 'p',
        'Q' => 'q',
        'R' => 'r',
        'S' => 's',
        'T' => 't',
        'U' => 'u',
        'V' => 'v',
        'W' => 'w',
        'X' => 'x',
        'Y' => 'y',
        'Z' => 'z',
        _ => c,
    }
}

pub open spec fn lower_seq(s: Seq<char>) -> Seq<char> {
    s.map_values(|c: char| lower_char(c))
}

fn lower_of(c: char) -> (r: char)
    ensures
        r == lower_char(c),
{
    match c {
        'A' => 'a',
        'B' => 'b',
        'C' => 'c',
        'D' => 'd',
        'E' => 'e',
        'F' => 'f',
        'G' => 'g',
        'H' => 'h',
        'I' => 'i',
        'J' => 'j',
        'K' => 'k',
        'L' => 'l',
        'M' => 'm',
        'N' => 'n',
        'O' => 'o',
        'P' => 'p',
        'Q' => 'q',
        'R' => 'r',
        'S' => 's',
        'T' => 't',
        'U' => 'u',
        'V' => 'v',
        'W' => 'w',
        'X' => 'x',
        'Y' => 'y',
        'Z' => 'z',
        _ => c,
    }
}

/// `i` starts an extension: it holds the last `.` of the path and no path
/// separator follows it.
pub open spec fn is_ext_start(s: Seq<char>, i: int) -> bool {
    &&& 0 <= i < s.len()
    &&& s[i] == '.'
    &&& forall|j: int| i < j < s.len() ==> s[j] != '.' && s[j] != '/'
}

/// The path's extension: what follows the last `.` that comes after every
/// `/`, if there is one.
pub open spec fn spec_extension(s: Seq<char>) -> Option<Seq<char>> {
    if exists|i: int| is_ext_start(s, i) {
        Some(s.subrange((choose|i: int| is_ext_start(s, i)) + 1, s.len() as int))
    } else {
        None
    }
}

/// At most one position starts the extension.
proof fn lemma_ext_start_unique(s: Seq<char>, i: int, j: int)
    requires
        is_ext_start(s, i),
        is_ext_start(s, j),
    ensures
        i == j,
{
    if i < j {
        assert(s[j] != '.');
    } else if j < i {
        assert(s[i] != '.');
    }
}

/// Recognised still-image extensions (already lower-cased).
pub open spec fn is_image_ext(e: Seq<char>) -> bool {
    ||| e == "png"@
    ||| e == "jpg"@
    ||| e == "jpeg"@
    ||| e == "bmp"@
    ||| e == "gif"@
    ||| e == "webp"@
}

/// Recognised video-container extensions (already lower-cased).
pub open spec fn is_video_ext(e: Seq<char>) -> bool {
    ||| e == "mp4"@
    ||| e == "avi"@
    ||| e == "mkv"@
    ||| e == "mov"@
    ||| e == "wmv"@
    ||| e == "flv"@
    ||| e == "webm"@
    ||| e == "m4v"@
}

/// How a load request is classified before any decoder runs: a missing path
/// is `NotFound`; a path without a recognised extension is unsupported; the
/// rest is a still image or a video by its extension, case-insensitively.
pub open spec fn spec_classify(path: Seq<char>, exists_on_disk: bool) -> Result<
    MediaKind,
    ImageError,
> {
    if !exists_on_disk {
        Err(ImageError::NotFound(arbitrary()))
    } else {
        match spec_extension(path) {
            None => Err(ImageError::UnsupportedFormat(arbitrary())),
            Some(e) => if is_image_ext(lower_seq(e)) {
                Ok(MediaKind::StillImage)
            } else if is_video_ext(lower_seq(e)) {
                Ok(MediaKind::Video)
            } else {
                Err(ImageError::UnsupportedFormat(arbitrary()))
            },
        }
    }
}

/// Position right after the extension start, scanning from the end.
fn find_ext_start(path: &str) -> (r: Option<usize>)
    ensures
        match r {
            Some(i) => is_ext_start(path@, i as int),
            None => forall|i: int| !is_ext_start(path@, i),
        },
{
    let n = path.unicode_len();
    let mut k: usize = n;
    while k > 0
        invariant
            k <= n,
            n == path@.len(),
            forall|j: int| k <= j < n ==> path@[j] != '.' && path@[j] != '/',
        decreases k,
    {
        let c = path.get_char(k - 1);
        if c == '.' {
            return Some(k - 1);
        }
        if c == '/' {
            proof {
                assert forall|i: int| !is_ext_start(path@, i) by {
                    if is_ext_start(path@, i) {
                        if i < k - 1 {
                            assert(path@[k - 1] != '/');
                        } else {
                            assert(path@[i] != '.');
                        }
                    }
                }
            }
            return None;
        }
        k = k - 1;
    }
    proof {
        assert forall|i: int| !is_ext_start(path@, i) by {
            if is_ext_start(path@, i) {
                assert(path@[i] != '.');
            }
        }
    }
    None
}

/// Compares the tail of `s` from `start`, lower-cased, against `lit`.
fn tail_matches_lower(s: &str, start: usize, lit: &str) -> (r: bool)
    requires
        start <= s@.len(),
    ensures
        r == (lower_seq(s@.subrange(start as int, s@.len() as int)) == lit@),
    // the tail, lower-cased, is the literal

{
    let n = s.unicode_len();
    let m = lit.unicode_len();
    if n - start != m {
        proof {
            assert(lower_seq(s@.subrange(start as int, s@.len() as int)).len() == n - start);
        }
        return false;
    }
    let mut k: usize = 0;
    while k < m
        invariant
            k <= m,
            start + m == n,
            n == s@.len(),
            m == lit@.len(),
            forall|j: int|
                0 <= j < k ==> lower_char(s@[start + j]) == lit@[j],
        decreases m - k,
    {
        let c = lower_of(s.get_char(start + k));
        let d = lit.get_char(k);
        if c != d {
            proof {
                let tail = s@.subrange(start as int, s@.len() as int);
                assert(lower_seq(tail)[k as int] == lower_char(s@[start + k]));
            }
            return false;
        }
        k = k + 1;
    }
    proof {
        let tail = s@.subrange(start as int, s@.len() as int);
        assert forall|j: int| 0 <= j < m implies lower_seq(tail)[j] == lit@[j] by {
            assert(lower_seq(tail)[j] == lower_char(s@[start + j]));
        }
        assert(lower_seq(tail) =~= lit@);
    }
    true
}

/// Classifies a load request from the source path and whether it exists on
/// disk: a missing path is `NotFound`, an unrecognised or missing extension
/// `UnsupportedFormat`, and the rest a still image or a video. The error
/// carries the offending path.
pub fn classify_source(path: &str, exists_on_disk: bool) -> (r: Result<MediaKind, ImageError>)
    ensures
        r is Ok == spec_classify(path@, exists_on_disk) is Ok,
        r matches Ok(k) ==> spec_classify(path@, exists_on_disk) matches Ok(k2) && k == k2,
        r matches Err(e) ==> match e {
            ImageError::NotFound(p) => !exists_on_disk && p@ == path@,
            ImageError::UnsupportedFormat(p) => exists_on_disk && p@ == path@ && match
                spec_extension(path@) {
                None => true,
                Some(ext) => !is_image_ext(lower_seq(ext)) && !is_video_ext(lower_seq(ext)),
            },
            _ => false,
        },
{
    if !exists_on_disk {
        return Err(ImageError::NotFound(path.to_owned()));
    }
    let start = match find_ext_start(path) {
        Some(i) => i,
        None => {
            return Err(ImageError::UnsupportedFormat(path.to_owned()));
        },
    };
    proof {
        let i = choose|i: int| is_ext_start(path@, i);
        lemma_ext_start_unique(path@, i, start as int);
    }
    let n = path.unicode_len();
    proof {
        assert(start < n);
    }
    let lo = start + 1;
    let image_hit = tail_matches_lower(path, lo, "png") || tail_matches_lower(path, lo, "jpg")
        || tail_matches_lower(path, lo, "jpeg") || tail_matches_lower(path, lo, "bmp")
        || tail_matches_lower(path, lo, "gif") || tail_matches_lower(path, lo, "webp");
    if image_hit {
        return Ok(MediaKind::StillImage);
    }
    let video_hit = tail_matches_lower(path, lo, "mp4") || tail_matches_lower(path, lo, "avi")
        || tail_matches_lower(path, lo, "mkv") || tail_matches_lower(path, lo, "mov")
        || tail_matches_lower(path, lo, "wmv") || tail_matches_lower(path, lo, "flv")
        || tail_matches_lower(path, lo, "webm") || tail_matches_lower(path, lo, "m4v");
    if video_hit {
        return Ok(MediaKind::Video);
    }
    Err(ImageError::UnsupportedFormat(path.to_owned()))
}

/// Stream metadata, computed once on load and immutable afterwards. The
/// frame rate is kept in thousandths of a frame per second, the duration in
/// milliseconds.
pub struct VideoMetadata {
    pub width: u32,
    pub height: u32,
    pub fps_millis: u32,
    pub duration_millis: u64,
    pub total_frame_count: u64,
    pub format: String,
    pub has_audio: bool,
}

/// `floor(duration × fps)` when both are known and positive, else zero.
pub open spec fn spec_total_frames(duration_millis: u64, fps_millis: u32) -> int {
    if duration_millis > 0 && fps_millis > 0 {
        (duration_millis * fps_millis) / 1_000_000
    } else {
        0
    }
}

impl VideoMetadata {
    /// Builds the metadata from what the decoder reported. A stream without
    /// a declared frame rate defaults to 25 frames per second; the total
    /// frame count is `floor(duration × fps)` when both are known and
    /// positive, else zero. The bounds keep the product inside the machine
    /// word: about thirty years of media at up to a thousand frames a second.
    pub fn from_probe(
        width: u32,
        height: u32,
        fps_millis: Option<u32>,
        duration_millis: Option<u64>,
        format: String,
        has_audio: bool,
    ) -> (m: VideoMetadata)
        requires
            fps_millis matches Some(f) ==> f <= 1_000_000,
            duration_millis matches Some(d) ==> d <= 1_000_000_000_000,
        ensures
            m.width == width,
            m.height == height,
            m.fps_millis == match fps_millis {
                Some(f) => f,
                None => 25_000u32,
            },
            m.duration_millis == match duration_millis {
                Some(d) => d,
                None => 0u64,
            },
            m.total_frame_count == spec_total_frames(m.duration_millis, m.fps_millis),
            m.format == format,
            m.has_audio == has_audio,
    {
        let fps: u32 = match fps_millis {
            Some(f) => f,
            None => 25_000,
        };
        let duration: u64 = match duration_millis {
            Some(d) => d,
            None => 0,
        };
        let total: u64 = if duration > 0 && fps > 0 {
            proof {
                assert(duration * fps <= 1_000_000_000_000 * 1_000_000) by (nonlinear_arith)
                    requires
                        duration <= 1_000_000_000_000,
                        fps <= 1_000_000,
                ;
            }
            (duration * (fps as u64)) / 1_000_000
        } else {
            0
        };
        VideoMetadata {
            width,
            height,
            fps_millis: fps,
            duration_millis: duration,
            total_frame_count: total,
            format,
            has_audio,
        }
    }
}

/// The numeric value of the decimal digits of a name, read left to right;
/// non-digit characters are skipped. Extracted frame files carry their frame
/// number this way.
pub open spec fn spec_digits_value(s: Seq<char>) -> int
    decreases s.len(),
{
    if s.len() == 0 {
        0
    } else {
        let prefix = spec_digits_value(s.drop_last());
        let c = s.last();
        if '0' <= c <= '9' {
            prefix * 10 + (c as int - '0' as int)
        } else {
            prefix
        }
    }
}

/// Whether a name holds any decimal digit.
pub open spec fn spec_has_digit(s: Seq<char>) -> bool {
    exists|i: int| 0 <= i < s.len() && '0' <= #[trigger] s[i] <= '9'
}

/// Reads a frame file's number: the value of its decimal digits in order.
/// A name without digits, or whose number overflows the machine word, has
/// none.
pub fn frame_number_of(name: &str) -> (r: Option<u64>)
    ensures
        match r {
            Some(v) => spec_has_digit(name@) && v == spec_digits_value(name@),
            None => !spec_has_digit(name@) || spec_digits_value(name@) > u64::MAX,
        },
{
    let n = name.unicode_len();
    let mut k: usize = 0;
    let mut acc: u64 = 0;
    let mut seen: bool = false;
    while k < n
        invariant
            k <= n,
            n == name@.len(),
            seen == spec_has_digit(name@.subrange(0, k as int)),
            acc == spec_digits_value(name@.subrange(0, k as int)),
        decreases n - k,
    {
        let c = name.get_char(k);
        proof {
            assert(name@.subrange(0, k + 1).drop_last() =~= name@.subrange(0, k as int));
            assert(name@.subrange(0, k + 1).last() == name@[k as int]);
        }
        if '0' <= c && c <= '9' {
            let d: u64 = (c as u32 as u64) - 48;
            if acc > (u64::MAX - d) / 10 {
                proof {
                    assert(acc * 10 + d > u64::MAX) by (nonlinear_arith)
                        requires
                            acc > (u64::MAX - d) / 10,
                            0 <= d <= 9,
                    ;
                    assert(spec_digits_value(name@.subrange(0, k + 1)) == acc * 10 + d);
                    lemma_digits_value_grows(name@, k + 1);
                }
                return None;
            }
            acc = acc * 10 + d;
            seen = true;
        }
        k = k + 1;
    }
    proof {
        assert(name@.subrange(0, n as int) =~= name@);
    }
    if seen {
        Some(acc)
    } else {
        None
    }
}

/// The digit value of a prefix never exceeds the digit value of the whole.
proof fn lemma_digits_value_grows(s: Seq<char>, k: int)
    requires
        0 <= k <= s.len(),
    ensures
        spec_digits_value(s.subrange(0, k)) <= spec_digits_value(s),
        spec_digits_value(s) >= 0,
    decreases s.len() - k,
{
    if k == s.len() {
        assert(s.subrange(0, k) =~= s);
        lemma_digits_value_nonneg(s);
    } else {
        lemma_digits_value_grows(s, k + 1);
        let sk = s.subrange(0, k);
        let sk1 = s.subrange(0, k + 1);
        assert(sk1.drop_last() =~= sk);
        lemma_digits_value_nonneg(sk);
        if '0' <= s[k] <= '9' {
            assert(spec_digits_value(sk1) == spec_digits_value(sk) * 10 + (s[k] as int
                - '0' as int));
            assert(spec_digits_value(sk) * 10 >= spec_digits_value(sk)) by (nonlinear_arith)
                requires
                    spec_digits_value(sk) >= 0,
            ;
        }
    }
}

proof fn lemma_digits_value_nonneg(s: Seq<char>)
    ensures
        spec_digits_value(s) >= 0,
    decreases s.len(),
{
    if s.len() > 0 {
        lemma_digits_value_nonneg(s.drop_last());
        if '0' <= s.last() <= '9' {
            assert(spec_digits_value(s.drop_last()) * 10 >= 0) by (nonlinear_arith)
                requires
                    spec_digits_value(s.drop_last()) >= 0,
            ;
        }
    }
}

/// A name carries a frame number that the machine can hold.
pub open spec fn has_frame_number(n: String) -> bool {
    spec_has_digit(n@) && spec_digits_value(n@) <= u64::MAX
}

/// The names that carry a frame number, in their given order.
pub open spec fn kept_names(names: Seq<String>) -> Seq<String> {
    names.filter(|n: String| has_frame_number(n))
}

/// Mapping a sequence of numbered names to the names alone commutes with
/// removing one entry.
proof fn lemma_map_snd_remove(s: Seq<(u64, String)>, m: int)
    requires
        0 <= m < s.len(),
    ensures
        s.remove(m).map_values(|p: (u64, String)| p.1) =~= s.map_values(
            |p: (u64, String)| p.1,
        ).remove(m),
{
}

/// Orders the file names of an extracted frame sequence by their frame
/// numbers, so the sequence is loaded in filename order. Names without a
/// readable number are dropped; the rest come back exactly once, sorted by
/// number (ties in either order).
pub fn order_frame_files(names: Vec<String>) -> (r: Vec<String>)
    ensures
        r@.to_multiset() == kept_names(names@).to_multiset(),
        forall|i: int| 0 <= i < r@.len() ==> has_frame_number(#[trigger] r@[i]),
        forall|i: int, j: int|
            0 <= i < j < r@.len() ==> spec_digits_value(#[trigger] r@[i]@) <= spec_digits_value(
                #[trigger] r@[j]@,
            ),
{
    broadcast use vstd::seq_lib::group_filter_ensures;
    broadcast use vstd::seq_lib::group_to_multiset_ensures;

    let mut rest = names;
    let mut keyed: Vec<(u64, String)> = Vec::new();
    let ghost all = names@;
    proof {
        assert(keyed@.map_values(|p: (u64, String)| p.1) =~= Seq::<String>::empty());
        assert(Seq::<String>::empty().to_multiset() =~= Multiset::<String>::empty());
        assert(keyed@.map_values(|p: (u64, String)| p.1).to_multiset().add(
            kept_names(rest@).to_multiset(),
        ) =~= kept_names(all).to_multiset());
    }
    while rest.len() > 0
        invariant
            keyed@.map_values(|p: (u64, String)| p.1).to_multiset().add(
                kept_names(rest@).to_multiset(),
            ) =~= kept_names(all).to_multiset(),
            forall|i: int|
                0 <= i < keyed@.len() ==> has_frame_number((#[trigger] keyed@[i]).1)
                    && keyed@[i].0 == spec_digits_value(keyed@[i].1@),
        decreases rest@.len(),
    {
        let ghost rest_before = rest@;
        let name = match rest.pop() {
            Some(n) => n,
            None => {
                proof {
                    assert(false);
                }
                unreached()
            },
        };
        proof {
            assert(rest_before =~= rest@.push(name));
            assert(kept_names(rest_before) =~= kept_names(rest@.push(name)));
            reveal_with_fuel(Seq::filter, 2);
            if has_frame_number(name) {
                assert(kept_names(rest@.push(name)) =~= kept_names(rest@).push(name));
            } else {
                assert(kept_names(rest@.push(name)) =~= kept_names(rest@));
            }
        }
        let number = frame_number_of(name.as_str());
        match number {
            Some(v) => {
                let ghost keyed_before = keyed@;
                keyed.push((v, name));
                proof {
                    broadcast use vstd::seq_lib::group_to_multiset_ensures;

                    assert(keyed@.map_values(|p: (u64, String)| p.1) =~= keyed_before.map_values(
                        |p: (u64, String)| p.1,
                    ).push(name));
                }
            },
            None => {},
        }
    }
    proof {
        assert(rest@ =~= Seq::<String>::empty());
        reveal_with_fuel(Seq::filter, 2);
        assert(kept_names(rest@) =~= Seq::<String>::empty());
        assert(Seq::<String>::empty().to_multiset() =~= Multiset::<String>::empty());
    }
    let mut out: Vec<(u64, String)> = Vec::new();
    proof {
        assert(out@.map_values(|p: (u64, String)| p.1) =~= Seq::<String>::empty());
        assert(out@.map_values(|p: (u64, String)| p.1).to_multiset().add(
            keyed@.map_values(|p: (u64, String)| p.1).to_multiset(),
        ) =~= kept_names(all).to_multiset());
    }
    while keyed.len() > 0
        invariant
            out@.map_values(|p: (u64, String)| p.1).to_multiset().add(
                keyed@.map_values(|p: (u64, String)| p.1).to_multiset(),
            ) =~= kept_names(all).to_multiset(),
            forall|i: int|
                0 <= i < keyed@.len() ==> has_frame_number((#[trigger] keyed@[i]).1)
                    && keyed@[i].0 == spec_digits_value(keyed@[i].1@),
            forall|i: int|
                0 <= i < out@.len() ==> has_frame_number((#[trigger] out@[i]).1) && out@[i].0
                    == spec_digits_value(out@[i].1@),
            forall|i: int, j: int|
                0 <= i < j < out@.len() ==> (#[trigger] out@[i]).0 <= (#[trigger] out@[j]).0,
            forall|i: int, j: int|
                0 <= i < out@.len() && 0 <= j < keyed@.len() ==> (#[trigger] out@[i]).0 <= (
                #[trigger] keyed@[j]).0,
        decreases keyed@.len(),
    {
        let mut m: usize = 0;
        let mut k: usize = 1;
        while k < keyed.len()
            invariant
                m < k <= keyed@.len(),
                forall|i: int| 0 <= i < k ==> (#[trigger] keyed@[m as int]).0 <= keyed@[i].0,
            decreases keyed@.len() - k,
        {
            if keyed[k].0 < keyed[m].0 {
                m = k;
            }
            k = k + 1;
        }
        let ghost keyed_before = keyed@;
        let ghost out_before = out@;
        let item = keyed.remove(m);
        out.push(item);
        proof {
            broadcast use vstd::seq_lib::group_to_multiset_ensures;

            lemma_map_snd_remove(keyed_before, m as int);
            assert(out@.map_values(|p: (u64, String)| p.1) =~= out_before.map_values(
                |p: (u64, String)| p.1,
            ).push(item.1));
            assert(keyed_before.map_values(|p: (u64, String)| p.1)[m as int] == item.1);
        }
    }
    let mut r: Vec<String> = Vec::new();
    while out.len() > 0
        invariant
            r@.to_multiset().add(out@.map_values(|p: (u64, String)| p.1).to_multiset())
                =~= kept_names(all).to_multiset(),
            forall|i: int|
                0 <= i < out@.len() ==> has_frame_number((#[trigger] out@[i]).1) && out@[i].0
                    == spec_digits_value(out@[i].1@),
            forall|i: int, j: int|
                0 <= i < j < out@.len() ==> (#[trigger] out@[i]).0 <= (#[trigger] out@[j]).0,
            forall|i: int| 0 <= i < r@.len() ==> has_frame_number(#[trigger] r@[i]),
            forall|i: int, j: int|
                0 <= i < j < r@.len() ==> spec_digits_value(#[trigger] r@[i]@)
                    <= spec_digits_value(#[trigger] r@[j]@),
            forall|i: int, j: int|
                0 <= i < r@.len() && 0 <= j < out@.len() ==> spec_digits_value(#[trigger] r@[i]@)
                    <= spec_digits_value((#[trigger] out@[j]).1@),
        decreases out@.len(),
    {
        let ghost out_before = out@;
        let item = out.remove(0);
        r.push(item.1);
        proof {
            broadcast use vstd::seq_lib::group_to_multiset_ensures;

            lemma_map_snd_remove(out_before, 0);
            assert(out_before.map_values(|p: (u64, String)| p.1)[0] == item.1);
        }
    }
    proof {
        assert(out@.map_values(|p: (u64, String)| p.1).to_multiset() =~= Multiset::empty());
        assert(r@.to_multiset() =~= kept_names(all).to_multiset());
    }
    r
}

/// What a frame lookup produced: a ready frame, a request that the caller
/// decode the numbered frame (by reading the container from its start up to
/// that index) and hand it back, or a rejection of an index past the clip.
pub enum FrameQuery {
    Ready(Frame),
    NeedsDecode(usize),
    OutOfRange,
}

/// The frame store: either a pre-extracted frame list (bulk strategy) or a
/// cache over on-demand decodes (seek strategy). It owns the cache and hands
/// out copies of frames; the decoders themselves run outside and feed
/// results back through `complete_decode`.
pub struct FrameSource {
    pub bulk_frames: Vec<Frame>,
    pub cache: FrameCache,
    pub total_frames: usize,
}

impl FrameSource {
    /// Well-formedness: a sound cache, well-formed frames, and a bulk list
    /// that, when present, is the whole clip.
    pub open spec fn wf(self) -> bool {
        &&& self.cache.wf()
        &&& forall|i: int|
            0 <= i < self.bulk_frames@.len() ==> (#[trigger] self.bulk_frames@[i]).wf()
        &&& self.bulk_frames@.len() > 0 ==> self.total_frames == self.bulk_frames@.len()
    }

    /// An empty source whose cache holds at most `cache_capacity` frames.
    pub fn new(cache_capacity: usize) -> (s: FrameSource)
        requires
            1 <= cache_capacity,
        ensures
            s.wf(),
            s.bulk_frames@.len() == 0,
            s.total_frames == 0,
            s.cache.view().len() == 0,
            s.cache.spec_max_size() == cache_capacity,
    {
        FrameSource { bulk_frames: Vec::new(), cache: FrameCache::new(cache_capacity), total_frames: 0 }
    }

    /// Installs a pre-extracted frame sequence (bulk strategy); the cache and
    /// any earlier clip are dropped first.
    pub fn set_bulk_frames(&mut self, frames: Vec<Frame>)
        requires
            old(self).wf(),
            forall|i: int| 0 <= i < frames@.len() ==> (#[trigger] frames@[i]).wf(),
        ensures
            final(self).wf(),
            final(self).bulk_frames@ == frames@,
            final(self).total_frames == frames@.len(),
            final(self).cache.view().len() == 0,
            final(self).cache.spec_max_size() == old(self).cache.spec_max_size(),
    {
        self.cache.clear();
        self.total_frames = frames.len();
        self.bulk_frames = frames;
    }

    /// Installs a clip to be decoded on demand (seek strategy); the cache and
    /// any earlier clip are dropped first.
    pub fn set_streamed(&mut self, total_frames: usize)
        requires
            old(self).wf(),
        ensures
            final(self).wf(),
            final(self).bulk_frames@.len() == 0,
            final(self).total_frames == total_frames,
            final(self).cache.view().len() == 0,
            final(self).cache.spec_max_size() == old(self).cache.spec_max_size(),
    {
        self.cache.clear();
        self.bulk_frames = Vec::new();
        self.total_frames = total_frames;
    }

    /// Abandons the current clip: the frame list and the cache are emptied,
    /// as a switch to new media or an exit requires.
    pub fn clear(&mut self)
        requires
            old(self).wf(),
        ensures
            final(self).wf(),
            final(self).bulk_frames@.len() == 0,
            final(self).total_frames == 0,
            final(self).cache.view().len() == 0,
            final(self).cache.spec_max_size() == old(self).cache.spec_max_size(),
    {
        self.cache.clear();
        self.bulk_frames = Vec::new();
        self.total_frames = 0;
    }

    /// Looks a frame up: out of range past the clip; a copy from the bulk
    /// list when one is loaded; otherwise a cache hit (which refreshes the
    /// entry's recency) or a request that the caller decode the frame.
    pub fn frame_at(&mut self, index: usize) -> (r: FrameQuery)
        requires
            old(self).wf(),
        ensures
            final(self).wf(),
            final(self).bulk_frames@ == old(self).bulk_frames@,
            final(self).total_frames == old(self).total_frames,
            final(self).cache.spec_max_size() == old(self).cache.spec_max_size(),
            index >= old(self).total_frames ==> r is OutOfRange && final(self).cache.view() == old(self).cache.view(),
            index < old(self).total_frames && old(self).bulk_frames@.len() > 0 ==> (r matches
                FrameQuery::Ready(f) && f.wf() && f.data() == old(self).bulk_frames@[
                index as int].data() && f.spec_width() == old(self).bulk_frames@[
                index as int].spec_width() && f.spec_height() == old(self).bulk_frames@[
                index as int].spec_height() && final(self).cache.view() == old(self).cache.view()),
            index < old(self).total_frames && old(self).bulk_frames@.len() == 0 && old(self).cache.contains_key(index) ==> (r matches FrameQuery::Ready(f) && f.wf() && f.data()
                == old(self).cache.frame_of(index).data() && final(self).cache.view() == old(self).cache.view().remove(old(self).cache.key_pos(index)).push(
                old(self).cache.view()[old(self).cache.key_pos(index)],
            )),
            index < old(self).total_frames && old(self).bulk_frames@.len() == 0 && !old(self).cache.contains_key(index) ==> r == FrameQuery::NeedsDecode(index) && final(self).cache.view() == old(self).cache.view(),
    {
        if index >= self.total_frames {
            return FrameQuery::OutOfRange;
        }
        if self.bulk_frames.len() > 0 {
            let f = self.bulk_frames[index].duplicate();
            return FrameQuery::Ready(f);
        }
        match self.cache.get(index) {
            Some(f) => FrameQuery::Ready(f),
            None => FrameQuery::NeedsDecode(index),
        }
    }

    /// Stores a frame the caller decoded on request; it enters the cache as
    /// the most recently used entry, exactly as the cache's own contract
    /// says: an index already present is overwritten in place of its old
    /// entry, and a fresh index entering a full cache first evicts the least
    /// recently used entry and no other.
    pub fn complete_decode(&mut self, index: usize, frame: Frame)
        requires
            old(self).wf(),
            frame.wf(),
        ensures
            final(self).wf(),
            final(self).bulk_frames@ == old(self).bulk_frames@,
            final(self).total_frames == old(self).total_frames,
            final(self).cache.spec_max_size() == old(self).cache.spec_max_size(),
            final(self).cache.contains_key(index),
            final(self).cache.view().last() == (index, frame),
            final(self).cache.view().len() <= old(self).cache.spec_max_size(),
            old(self).cache.contains_key(index) ==> final(self).cache.view() == old(self).cache.view().remove(old(self).cache.key_pos(index)).push((index, frame)),
            !old(self).cache.contains_key(index) && old(self).cache.view().len() < old(self).cache.spec_max_size() ==> final(self).cache.view() == old(self).cache.view().push(
                (index, frame),
            ),
            !old(self).cache.contains_key(index) && old(self).cache.view().len() == old(self).cache.spec_max_size() ==> final(self).cache.view() == old(self).cache.view().subrange(1, old(self).cache.view().len() as int).push((index, frame)),
    {
        self.cache.insert(index, frame);
        proof {
            assert(final(self).cache.keys().last() == index);
            assert(final(self).cache.keys()[final(self).cache.keys().len() - 1] == final(self).cache.view()[final(self).cache.view().len() - 1].0);
        }
    }
}

} // verus!
