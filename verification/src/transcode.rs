//! Planning for the external transcoder.
//!
//! The transcoder itself is an external process; what this module owns is
//! everything decided *about* an invocation: where the binaries are looked
//! up, the exact argument lists for the probe, thumbnail and slicing
//! runs, the parsing of the probe's duration output, the pseudo-random
//! seek position, and the master playlist that may be synthesized only
//! after a successful slicing run.

use vstd::prelude::*;

verus! {

use vstd::string::StringExecFns;
use crate::error::{AppError, AppResult};

/// One event of a streamed slicing run: a progress line, or exactly one
/// terminal success or failure.
#[derive(Debug)]
pub enum SliceEvent {
    /// One progress line of the running transcoder.
    Wip(String),
    /// The transcoder exited successfully and the master playlist exists.
    Done,
    /// The transcoder failed; the cause, as reported.
    Failed(String),
}

/// Whether a character is ASCII whitespace as the probe output carries it.
pub open spec fn is_space(c: char) -> bool {
    c == ' ' || c == '\n' || c == '\t' || c == '\r'
}

/// Whether a character is a decimal digit.
pub open spec fn is_digit(c: char) -> bool {
    '0' <= c && c <= '9'
}

/// The value of one digit character.
pub open spec fn digit_val(c: char) -> int {
    c as int - '0' as int
}

/// A sequence without its leading whitespace.
pub open spec fn trim_start_spec(s: Seq<char>) -> Seq<char>
    decreases s.len(),
{
    if s.len() > 0 && is_space(s.first()) {
        trim_start_spec(s.drop_first())
    } else {
        s
    }
}

/// A sequence without its trailing whitespace.
pub open spec fn trim_end_spec(s: Seq<char>) -> Seq<char>
    decreases s.len(),
{
    if s.len() > 0 && is_space(s.last()) {
        trim_end_spec(s.drop_last())
    } else {
        s
    }
}

/// A sequence without leading or trailing whitespace.
pub open spec fn trim_spec(s: Seq<char>) -> Seq<char> {
    trim_end_spec(trim_start_spec(s))
}

/// Every character a digit.
pub open spec fn all_digits(s: Seq<char>) -> bool {
    forall|i: int| 0 <= i < s.len() ==> is_digit(#[trigger] s[i])
}

/// How many leading characters are digits.
pub open spec fn leading_digits(s: Seq<char>) -> int
    decreases s.len(),
{
    if s.len() > 0 && is_digit(s.first()) {
        1 + leading_digits(s.drop_first())
    } else {
        0
    }
}

/// The value of a digit sequence read in decimal.
pub open spec fn digits_val(s: Seq<char>) -> int
    decreases s.len(),
{
    if s.len() == 0 {
        0
    } else {
        digits_val(s.drop_last()) * 10 + digit_val(s.last())
    }
}

/// The whole seconds of the probe's duration line. The line must read
/// `duration=` followed by a decimal number — digits with an optional
/// fraction — surrounded by nothing but whitespace; the value is the
/// number's integer part. A line of any other shape, or a value beyond
/// `u64::MAX`, has no duration.
pub open spec fn spec_parse_duration(s: Seq<char>) -> Option<int> {
    if s.len() < 9 || s.take(9) != "duration="@ {
        None
    } else {
        let t = trim_spec(s.skip(9));
        let k = leading_digits(t);
        if k == 0 {
            None
        } else if k < t.len() && !(t[k] == '.' && all_digits(t.skip(k + 1))) {
            None
        } else if digits_val(t.take(k)) > u64::MAX {
            None
        } else {
            Some(digits_val(t.take(k)))
        }
    }
}

/// Longer digit runs never decrease the value.
proof fn lemma_digits_val_monotone(s: Seq<char>, i: int, j: int)
    requires
        0 <= i <= j <= s.len(),
        all_digits(s),
    ensures
        digits_val(s.take(i)) <= digits_val(s.take(j)),
    decreases j - i,
{
    if i < j {
        lemma_digits_val_monotone(s, i, j - 1);
        assert(s.take(j).drop_last() =~= s.take(j - 1));
        assert(digits_val(s.take(j)) == digits_val(s.take(j - 1)) * 10 + digit_val(s[j - 1]));
        assert(digits_val(s.take(j - 1)) >= 0) by {
            lemma_digits_val_nonneg(s.take(j - 1));
        }
    }
}

/// A digit run's value is never negative.
proof fn lemma_digits_val_nonneg(s: Seq<char>)
    requires
        all_digits(s),
    ensures
        digits_val(s) >= 0,
    decreases s.len(),
{
    if s.len() > 0 {
        assert(all_digits(s.drop_last())) by {
            assert(forall|i: int| 0 <= i < s.len() - 1 ==> s.drop_last()[i] == s[i]);
        }
        lemma_digits_val_nonneg(s.drop_last());
    }
}

/// Trim ASCII whitespace from both ends.
#[verifier::loop_isolation(false)]
pub(crate) fn trim(s: &str) -> (r: &str)
    ensures
        r@ == trim_spec(s@),
{
    let n = s.unicode_len();
    let mut i: usize = 0;
    let mut front_done = false;
    proof {
        assert(s@.skip(0) =~= s@);
    }
    while !front_done && i < n
        invariant
            i <= n,
            n == s@.len(),
            trim_start_spec(s@) == trim_start_spec(s@.skip(i as int)),
            front_done ==> i < n && !is_space(s@[i as int]),
        decreases n - i, 1int - if front_done { 1int } else { 0int },
    {
        let c = s.get_char(i);
        if c == ' ' || c == '\n' || c == '\t' || c == '\r' {
            proof {
                assert(s@.skip(i as int).first() == s@[i as int]);
                assert(s@.skip(i as int).drop_first() =~= s@.skip(i as int + 1));
            }
            i = i + 1;
        } else {
            front_done = true;
        }
    }
    proof {
        if i == n {
            assert(s@.skip(n as int) =~= Seq::<char>::empty());
        } else {
            assert(s@.skip(i as int).first() == s@[i as int]);
        }
        assert(trim_start_spec(s@) == s@.skip(i as int));
    }
    let mut j: usize = n;
    let mut back_done = false;
    proof {
        assert(s@.skip(i as int).take(n - i) =~= s@.skip(i as int));
    }
    while !back_done && j > i
        invariant
            i <= j <= n,
            n == s@.len(),
            trim_start_spec(s@) == s@.skip(i as int),
            trim_end_spec(s@.skip(i as int)) == trim_end_spec(s@.skip(i as int).take(j - i)),
            back_done ==> j > i && !is_space(s@[j - 1]),
        decreases j, 1int - if back_done { 1int } else { 0int },
    {
        let c = s.get_char(j - 1);
        if c == ' ' || c == '\n' || c == '\t' || c == '\r' {
            proof {
                let t = s@.skip(i as int);
                assert(t.take(j - i).last() == s@[j - 1]);
                assert(t.take(j - i).drop_last() =~= t.take(j - 1 - i));
            }
            j = j - 1;
        } else {
            back_done = true;
        }
    }
    proof {
        let t = s@.skip(i as int);
        if j == i {
            assert(t.take(0) =~= Seq::<char>::empty());
        } else {
            assert(t.take(j - i).last() == s@[j - 1]);
        }
        assert(trim_spec(s@) == t.take(j - i));
        assert(t.take(j - i) =~= s@.subrange(i as int, j as int));
    }
    s.substring_char(i, j)
}

/// Parse the probe's duration line into whole seconds, exactly as
/// [`spec_parse_duration`] reads it.
#[verifier::loop_isolation(false)]
pub fn parse_duration(s: &str) -> (r: Option<u64>)
    ensures
        r is Some <==> spec_parse_duration(s@) is Some,
        r matches Some(v) ==> Some(v as int) == spec_parse_duration(s@),
{
    let n = s.unicode_len();
    if n < 9 {
        proof {
            assert(spec_parse_duration(s@) is None);
        }
        return None;
    }
    let prefix = "duration=";
    proof {
        reveal_strlit("duration=");
    }
    let mut i: usize = 0;
    while i < 9
        invariant
            i <= 9,
            n == s@.len(),
            9 <= n,
            forall|k: int| 0 <= k < i ==> s@[k] == "duration="@[k],
        decreases 9 - i,
    {
        if s.get_char(i) != prefix.get_char(i) {
            proof {
                assert(s@.take(9)[i as int] != "duration="@[i as int]);
            }
            return None;
        }
        i = i + 1;
    }
    proof {
        assert(s@.take(9) =~= "duration="@);
    }
    let rest = s.substring_char(9, n);
    proof {
        assert(rest@ =~= s@.skip(9));
    }
    let t = trim(rest);
    let tn = t.unicode_len();
    // count the leading digits
    let mut k: usize = 0;
    let mut digits_done = false;
    proof {
        assert(t@.skip(0) =~= t@);
    }
    while !digits_done && k < tn
        invariant
            k <= tn,
            tn == t@.len(),
            forall|p: int| 0 <= p < k ==> is_digit(#[trigger] t@[p]),
            leading_digits(t@.skip(k as int)) == leading_digits(t@) - k,
            digits_done ==> k < tn && !is_digit(t@[k as int]),
        decreases tn - k, 1int - if digits_done { 1int } else { 0int },
    {
        let c = t.get_char(k);
        let code = c as u32;
        if 48 <= code && code <= 57 {
            proof {
                assert(t@.skip(k as int).first() == t@[k as int]);
                assert(t@.skip(k as int).drop_first() =~= t@.skip(k as int + 1));
            }
            k = k + 1;
        } else {
            digits_done = true;
        }
    }
    proof {
        if k == tn && !digits_done {
            assert(t@.skip(k as int) =~= Seq::<char>::empty());
        } else {
            assert(t@.skip(k as int).first() == t@[k as int]);
        }
        assert(leading_digits(t@) == k as int);
    }
    if k == 0 {
        return None;
    }
    // the tail after the digits must be a dot followed by digits only
    if k < tn {
        let c = t.get_char(k);
        if c != '.' {
            return None;
        }
        let mut p: usize = k + 1;
        while p < tn
            invariant
                k + 1 <= p <= tn,
                tn == t@.len(),
                forall|q: int| k + 1 <= q < p ==> is_digit(#[trigger] t@[q]),
            decreases tn - p,
        {
            let c2 = t.get_char(p);
            let code = c2 as u32;
            if !(48 <= code && code <= 57) {
                proof {
                    assert(!is_digit(t@[p as int]));
                    assert(t@.skip(k as int + 1)[p - k - 1] == t@[p as int]);
                }
                return None;
            }
            p = p + 1;
        }
        proof {
            assert(forall|q: int|
                0 <= q < t@.skip(k as int + 1).len() ==> #[trigger] t@.skip(k as int + 1)[q] == t@[q + k + 1]);
            assert(all_digits(t@.skip(k as int + 1)));
        }
    }
    // accumulate the integer part, watching for overflow
    let mut value: u64 = 0;
    let mut q: usize = 0;
    proof {
        assert(t@.take(0) =~= Seq::<char>::empty());
        assert(forall|p: int| 0 <= p < k ==> is_digit(#[trigger] t@.take(k as int)[p]));
    }
    while q < k
        invariant
            q <= k <= t@.len(),
            forall|p: int| 0 <= p < k ==> is_digit(#[trigger] t@[p]),
            value as int == digits_val(t@.take(q as int)),
        decreases k - q,
    {
        let c = t.get_char(q);
        let d: u64 = (c as u32 as u64) - 48;
        proof {
            assert(is_digit(t@[q as int]));
            assert(d == digit_val(t@[q as int]));
            assert(t@.take(q as int + 1).drop_last() =~= t@.take(q as int));
            assert(t@.take(q as int + 1).last() == t@[q as int]);
        }
        if value > (u64::MAX - d) / 10 {
            proof {
                let full = t@.take(k as int);
                assert(forall|p: int| 0 <= p < k ==> is_digit(#[trigger] full[p]));
                lemma_digits_val_monotone(full, q as int + 1, k as int);
                assert(full.take(q as int + 1) =~= t@.take(q as int + 1));
                assert(full.take(k as int) =~= full);
                assert(digits_val(t@.take(q as int + 1)) > u64::MAX) by (nonlinear_arith)
                    requires
                        digits_val(t@.take(q as int + 1)) == digits_val(t@.take(q as int)) * 10
                            + digit_val(t@[q as int]),
                        digits_val(t@.take(q as int)) == value as int,
                        value > (u64::MAX - digit_val(t@[q as int])) / 10,
                        0 <= digit_val(t@[q as int]) <= 9,
                        value >= 0,
                ;
            }
            return None;
        }
        proof {
            assert(value * 10 + d <= u64::MAX) by (nonlinear_arith)
                requires
                    value <= (u64::MAX - d) / 10,
                    0 <= d <= 9,
                    0 <= value,
            ;
        }
        value = value * 10 + d;
        q = q + 1;
    }
    Some(value)
}

/// The seek position for the thumbnail frame: a pseudo-random instant in
/// the second half of the duration, biased away from black leading
/// frames. `draw` is the caller's random value; any value maps into the
/// half-open range `[duration/2, duration)`.
pub fn thumbnail_seek(duration: u64, draw: u64) -> (r: u64)
    requires
        duration >= 1,
    ensures
        r as int == duration as int / 2 + draw as int % (duration as int - duration as int / 2),
        duration / 2 <= r < duration,
{
    let half = duration / 2;
    let span = duration - half;
    let r = half + draw % span;
    proof {
        assert(duration / 2 + (duration - duration / 2) == duration);
        assert(0 <= draw % span < span) by (nonlinear_arith)
            requires
                span > 0,
        ;
    }
    r
}

/// Append one literal argument.
fn push_lit(args: &mut Vec<String>, s: &str)
    ensures
        final(args)@.len() == old(args)@.len() + 1,
        forall|i: int| 0 <= i < old(args)@.len() ==> final(args)@[i] == old(args)@[i],
        final(args)@[old(args)@.len() as int]@ == s@,
{
    args.push(String::from_str(s));
}

/// Append one computed argument.
fn push_string(args: &mut Vec<String>, s: String)
    ensures
        final(args)@.len() == old(args)@.len() + 1,
        forall|i: int| 0 <= i < old(args)@.len() ==> final(args)@[i] == old(args)@[i],
        final(args)@[old(args)@.len() as int]@ == s@,
{
    args.push(s);
}

/// Join a relative path under a directory.
fn join_path(dir: &str, rel: &str) -> (r: String)
    ensures
        r@ == dir@ + rel@,
{
    let out = String::from_str(dir);
    out.concat(rel)
}

/// The transcoder's argument list for one slicing run: one invocation
/// producing both rungs as HLS segment sets under `out`.
pub open spec fn spec_slice_args(input: Seq<char>, out: Seq<char>) -> Seq<Seq<char>> {
    seq![
        "-i"@, input,
        "-c:v"@, "libx264"@,
        "-filter:v"@, "scale=1280:-1"@,
        "-g"@, "30"@,
        "-profile:v"@, "main"@,
        "-level"@, "4.0"@,
        "-b:v"@, "1500k"@,
        "-maxrate"@, "1500k"@,
        "-bufsize"@, "2250k"@,
        "-start_number"@, "0"@,
        "-hls_time"@, "1"@,
        "-hls_list_size"@, "0"@,
        "-f"@, "hls"@,
        out + "/720p/slice.m3u8"@,
        "-c:v"@, "libx264"@,
        "-filter:v"@, "scale=1280:-1"@,
        "-g"@, "30"@,
        "-profile:v"@, "main"@,
        "-level"@, "4.2"@,
        "-b:v"@, "3000k"@,
        "-maxrate"@, "3000k"@,
        "-bufsize"@, "4500k"@,
        "-start_number"@, "0"@,
        "-hls_time"@, "1"@,
        "-hls_list_size"@, "0"@,
        "-f"@, "hls"@,
        out + "/1080p/slice.m3u8"@,
    ]
}

/// The probe's argument list: print the container duration, nothing else.
pub open spec fn spec_probe_args(input: Seq<char>) -> Seq<Seq<char>> {
    seq![
        "-v"@, "error"@,
        "-show_entries"@, "format=duration"@,
        "-of"@, "default=noprint_wrappers=1"@,
        input,
    ]
}

/// The transcoder's argument list for one thumbnail extraction: seek to
/// the chosen instant and emit exactly one frame.
pub open spec fn spec_thumbnail_args(input: Seq<char>, seek: int, image: Seq<char>) -> Seq<
    Seq<char>,
> {
    seq!["-i"@, input, "-ss"@, crate::decimal::spec_udec(seek as nat), "-frames:v"@, "1"@, image]
}

/// The master playlist referencing both rungs with their bandwidth and
/// resolution attributes.
pub open spec fn spec_master_playlist() -> Seq<char> {
    "\n                    #EXTM3U\n                    #EXT-X-STREAM-INF:BANDWIDTH=1500000,RESOLUTION=1280x720\n                    720p/slice.m3u8\n                    #EXT-X-STREAM-INF:BANDWIDTH=3000000,RESOLUTION=1920x1080\n                    1080p/slice.m3u8\n                    "@
}

/// Everything one slicing run needs: the binary, its arguments, the rung
/// directories to create first, and where the master playlist goes on
/// success.
#[derive(Debug)]
pub struct SlicePlan {
    /// Path of the transcoder binary.
    pub program: String,
    /// The full argument list.
    pub args: Vec<String>,
    /// Directory of the lower rung's segments; created before the run.
    pub dir_720p: String,
    /// Directory of the higher rung's segments; created before the run.
    pub dir_1080p: String,
    /// Where the master playlist is written, on success only.
    pub master_path: String,
}

/// The file name of a bundled tool beside the configured sidecar
/// directory; on Windows the executable suffix is appended.
pub fn sidecar_path(sidecar_parent: &str, name: &str, windows: bool) -> (r: String)
    ensures
        windows ==> r@ == sidecar_parent@ + "/"@ + name@ + ".exe"@,
        !windows ==> r@ == sidecar_parent@ + "/"@ + name@,
{
    let mut out = String::from_str(sidecar_parent);
    out.append("/");
    out.append(name);
    if windows {
        out.append(".exe");
    }
    out
}

/// Which binary to run: the bundled sidecar tool when it is present,
/// otherwise the bare tool name, resolved through the system path.
pub fn path(sidecar_parent: &str, name: &str, windows: bool, sidecar_present: bool) -> (r: String)
    ensures
        sidecar_present && windows ==> r@ == sidecar_parent@ + "/"@ + name@ + ".exe"@,
        sidecar_present && !windows ==> r@ == sidecar_parent@ + "/"@ + name@,
        !sidecar_present ==> r@ == name@,
{
    if sidecar_present {
        sidecar_path(sidecar_parent, name, windows)
    } else {
        String::from_str(name)
    }
}

/// The configured transcoder: where its two binaries were found.
#[derive(Debug)]
pub struct FFmpegUtils {
    /// Path of the transcoder binary.
    pub ffmpeg_path: String,
    /// Path of the probe binary.
    pub ffprobe_path: String,
}

impl FFmpegUtils {
    /// A transcoder configuration from resolved binary paths.
    pub fn new(ffmpeg_path: String, ffprobe_path: String) -> (r: FFmpegUtils)
        ensures
            r.ffmpeg_path@ == ffmpeg_path@,
            r.ffprobe_path@ == ffprobe_path@,
    {
        FFmpegUtils { ffmpeg_path, ffprobe_path }
    }

    /// The probe invocation that prints one `duration=` line for a file.
    pub fn probe_args(&self, input: &str) -> (r: (String, Vec<String>))
        ensures
            r.0@ == self.ffprobe_path@,
            r.1@.len() == spec_probe_args(input@).len(),
            forall|i: int|
                0 <= i < r.1@.len() ==> #[trigger] r.1@[i]@ == spec_probe_args(input@)[i],
    {
        let mut args: Vec<String> = Vec::new();
        push_lit(&mut args, "-v");
        push_lit(&mut args, "error");
        push_lit(&mut args, "-show_entries");
        push_lit(&mut args, "format=duration");
        push_lit(&mut args, "-of");
        push_lit(&mut args, "default=noprint_wrappers=1");
        push_lit(&mut args, input);
        (self.ffprobe_path.clone(), args)
    }

    /// The whole plan of one slicing run over a stored payload.
    #[verifier::rlimit(60)]
    pub fn slice(&self, input: &str, output_dir: &str) -> (r: SlicePlan)
        ensures
            r.program@ == self.ffmpeg_path@,
            r.args@.len() == spec_slice_args(input@, output_dir@).len(),
            forall|i: int|
                0 <= i < r.args@.len() ==> #[trigger] r.args@[i]@ == spec_slice_args(
                    input@,
                    output_dir@,
                )[i],
            r.dir_720p@ == output_dir@ + "/720p"@,
            r.dir_1080p@ == output_dir@ + "/1080p"@,
            r.master_path@ == output_dir@ + "/slice.m3u8"@,
    {
        let mut args: Vec<String> = Vec::new();
        push_lit(&mut args, "-i");
        push_lit(&mut args, input);
        push_lit(&mut args, "-c:v");
        push_lit(&mut args, "libx264");
        push_lit(&mut args, "-filter:v");
        push_lit(&mut args, "scale=1280:-1");
        push_lit(&mut args, "-g");
        push_lit(&mut args, "30");
        push_lit(&mut args, "-profile:v");
        push_lit(&mut args, "main");
        push_lit(&mut args, "-level");
        push_lit(&mut args, "4.0");
        push_lit(&mut args, "-b:v");
        push_lit(&mut args, "1500k");
        push_lit(&mut args, "-maxrate");
        push_lit(&mut args, "1500k");
        push_lit(&mut args, "-bufsize");
        push_lit(&mut args, "2250k");
        push_lit(&mut args, "-start_number");
        push_lit(&mut args, "0");
        push_lit(&mut args, "-hls_time");
        push_lit(&mut args, "1");
        push_lit(&mut args, "-hls_list_size");
        push_lit(&mut args, "0");
        push_lit(&mut args, "-f");
        push_lit(&mut args, "hls");
        push_string(&mut args, join_path(output_dir, "/720p/slice.m3u8"));
        push_lit(&mut args, "-c:v");
        push_lit(&mut args, "libx264");
        push_lit(&mut args, "-filter:v");
        push_lit(&mut args, "scale=1280:-1");
        push_lit(&mut args, "-g");
        push_lit(&mut args, "30");
        push_lit(&mut args, "-profile:v");
        push_lit(&mut args, "main");
        push_lit(&mut args, "-level");
        push_lit(&mut args, "4.2");
        push_lit(&mut args, "-b:v");
        push_lit(&mut args, "3000k");
        push_lit(&mut args, "-maxrate");
        push_lit(&mut args, "3000k");
        push_lit(&mut args, "-bufsize");
        push_lit(&mut args, "4500k");
        push_lit(&mut args, "-start_number");
        push_lit(&mut args, "0");
        push_lit(&mut args, "-hls_time");
        push_lit(&mut args, "1");
        push_lit(&mut args, "-hls_list_size");
        push_lit(&mut args, "0");
        push_lit(&mut args, "-f");
        push_lit(&mut args, "hls");
        push_string(&mut args, join_path(output_dir, "/1080p/slice.m3u8"));
        SlicePlan {
            program: self.ffmpeg_path.clone(),
            args,
            dir_720p: join_path(output_dir, "/720p"),
            dir_1080p: join_path(output_dir, "/1080p"),
            master_path: join_path(output_dir, "/slice.m3u8"),
        }
    }

    /// The thumbnail invocation for a stored payload, given the probe's
    /// output and the caller's random draw: the probed duration must be a
    /// positive number of whole seconds, and the frame is taken at a
    /// pseudo-random instant in the second half of the duration.
    pub fn thumbnail(&self, input: &str, image: &str, probe_output: &str, draw: u64) -> (r:
        AppResult<Vec<String>>)
        ensures
            (match spec_parse_duration(probe_output@) {
                Some(d) => d > 0,
                None => false,
            }) ==> (r matches Ok(args) && {
                let d = spec_parse_duration(probe_output@).unwrap();
                let seek = d / 2 + (draw as int) % (d - d / 2);
                &&& args@.len() == spec_thumbnail_args(input@, seek, image@).len()
                &&& forall|i: int|
                    0 <= i < args@.len() ==> #[trigger] args@[i]@ == spec_thumbnail_args(
                        input@,
                        seek,
                        image@,
                    )[i]
            }),
            (match spec_parse_duration(probe_output@) {
                Some(d) => d <= 0,
                None => true,
            }) ==> (r matches Err(AppError::InvalidDuration(o)) && o@ == probe_output@),
    {
        let duration = match parse_duration(probe_output) {
            Some(d) => d,
            None => {
                return Err(AppError::InvalidDuration(String::from_str(probe_output)));
            },
        };
        if duration == 0 {
            return Err(AppError::InvalidDuration(String::from_str(probe_output)));
        }
        let seek = thumbnail_seek(duration, draw);
        let mut args: Vec<String> = Vec::new();
        push_lit(&mut args, "-i");
        push_lit(&mut args, input);
        push_lit(&mut args, "-ss");
        push_string(&mut args, crate::decimal::u64_to_string(seek));
        push_lit(&mut args, "-frames:v");
        push_lit(&mut args, "1");
        push_lit(&mut args, image);
        Ok(args)
    }
}

/// The master playlist's exact text.
pub fn master_playlist() -> (r: String)
    ensures
        r@ == spec_master_playlist(),
{
    String::from_str(
        "\n                    #EXTM3U\n                    #EXT-X-STREAM-INF:BANDWIDTH=1500000,RESOLUTION=1280x720\n                    720p/slice.m3u8\n                    #EXT-X-STREAM-INF:BANDWIDTH=3000000,RESOLUTION=1920x1080\n                    1080p/slice.m3u8\n                    ",
    )
}

/// Settle one finished slicing run: on success the master playlist text
/// is synthesized and the terminal event is success; on failure no master
/// playlist exists and the terminal event carries the cause. Exactly one
/// terminal event comes out either way.
pub fn finish_slice(success: bool, status: &str) -> (r: (Option<String>, SliceEvent))
    ensures
        success ==> (r.0 matches Some(c) && c@ == spec_master_playlist() && r.1 is Done),
        !success ==> (r.0 is None && (r.1 matches SliceEvent::Failed(m) && m@
            == "Failed to get slice "@ + status@)),
{
    if success {
        (Some(master_playlist()), SliceEvent::Done)
    } else {
        let mut m = String::from_str("Failed to get slice ");
        m.append(status);
        (None, SliceEvent::Failed(m))
    }
}

} // verus!
