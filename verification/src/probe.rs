use vstd::prelude::*;
use crate::error::JobError;

verus! {

/// What the probe tool tells of a source file.
#[derive(Clone, Copy, Debug, PartialEq, Eq, Structural)]
pub struct SourceStats {
    /// Running time, in microseconds.
    pub duration_micros: i64,
    /// Bitrate of the first audio stream, in bits per second.
    pub audio_bps: u32,
}

/// How one run of the probe tool ended.
#[derive(Debug)]
pub enum ProbeRun {
    /// The tool could not be started.
    NotStarted,
    /// The tool ran: whether it reported success, and what it wrote to
    /// its standard output.
    Exited { success: bool, stdout: Vec<u8> },
}

/// Microseconds in a second.
pub const MICROS_PER_SECOND: u64 = 1_000_000;

/// Decimals of a second that a duration keeps.
pub const FRACTION_DIGITS: usize = 6;

/// The bytes that count as blank: the space, and tab to carriage return.
pub open spec fn is_space(b: u8) -> bool {
    b == 32 || (9 <= b && b <= 13)
}

/// The bytes that write a digit.
pub open spec fn is_digit(b: u8) -> bool {
    48 <= b && b <= 57
}

pub open spec fn all_space(s: Seq<u8>) -> bool {
    forall|i: int| 0 <= i < s.len() ==> is_space(#[trigger] s[i])
}

pub open spec fn all_digits(s: Seq<u8>) -> bool {
    forall|i: int| 0 <= i < s.len() ==> is_digit(#[trigger] s[i])
}

/// The digit that the byte writes; 0 for a byte that writes none.
pub open spec fn digit_of(b: u8) -> nat {
    if is_digit(b) {
        (b - 48) as nat
    } else {
        0
    }
}

/// The number that a run of digits writes in base ten.
pub open spec fn digits_value(s: Seq<u8>) -> nat
    decreases s.len(),
{
    if s.len() == 0 {
        0
    } else {
        digits_value(s.drop_last()) * 10 + digit_of(s.last())
    }
}

/// How many bytes stand before the first `stop`; all of them where there
/// is no `stop`.
pub open spec fn span_until(s: Seq<u8>, stop: u8) -> nat
    decreases s.len(),
{
    if s.len() == 0 || s[0] == stop {
        0
    } else {
        1 + span_until(s.drop_first(), stop)
    }
}

/// The text up to its first line feed.
pub open spec fn first_line(s: Seq<u8>) -> Seq<u8> {
    s.subrange(0, span_until(s, 10) as int)
}

/// The text behind its first line feed; empty where it has none.
pub open spec fn after_first_line(s: Seq<u8>) -> Seq<u8> {
    if span_until(s, 10) < s.len() {
        s.subrange(span_until(s, 10) as int + 1, s.len() as int)
    } else {
        Seq::empty()
    }
}

/// The text without the blanks at its start.
pub open spec fn trim_start(s: Seq<u8>) -> Seq<u8>
    decreases s.len(),
{
    if s.len() > 0 && is_space(s[0]) {
        trim_start(s.drop_first())
    } else {
        s
    }
}

/// The text without the blanks at its end.
pub open spec fn trim_end(s: Seq<u8>) -> Seq<u8>
    decreases s.len(),
{
    if s.len() > 0 && is_space(s.last()) {
        trim_end(s.drop_last())
    } else {
        s
    }
}

/// The text without the blanks at its two ends.
pub open spec fn trimmed(s: Seq<u8>) -> Seq<u8> {
    trim_end(trim_start(s))
}

/// The bitrate that a field writes: digits, after a `+` or not, that
/// give a number within `u32`. Anything else writes none.
pub open spec fn unsigned_spec(s: Seq<u8>) -> Option<u32> {
    let digits = if s.len() > 0 && s[0] == 43 {
        s.drop_first()
    } else {
        s
    };
    if digits.len() > 0 && all_digits(digits) && digits_value(digits) <= u32::MAX {
        Some(digits_value(digits) as u32)
    } else {
        None
    }
}

/// Ten to the power `n`.
pub open spec fn pow10(n: nat) -> nat
    decreases n,
{
    if n == 0 {
        1
    } else {
        10 * pow10((n - 1) as nat)
    }
}

/// The microseconds that the decimals of a second give: the first six
/// count, what follows them is cut off.
pub open spec fn fraction_micros(frac: Seq<u8>) -> nat {
    if frac.len() >= FRACTION_DIGITS {
        digits_value(frac.subrange(0, FRACTION_DIGITS as int))
    } else {
        digits_value(frac) * pow10((FRACTION_DIGITS - frac.len()) as nat)
    }
}

/// The duration that a field writes, in microseconds: a decimal number
/// with digits before or behind an optional point, after a sign or not,
/// whose microseconds lie within `i64::MAX` either way. Anything else,
/// an exponent or a word, writes none.
pub open spec fn micros_spec(s: Seq<u8>) -> Option<i64> {
    let signed = s.len() > 0 && (s[0] == 43 || s[0] == 45);
    let negative = s.len() > 0 && s[0] == 45;
    let body = if signed {
        s.drop_first()
    } else {
        s
    };
    let point = span_until(body, 46) as int;
    let whole = body.subrange(0, point);
    let frac = if point < body.len() {
        body.subrange(point + 1, body.len() as int)
    } else {
        Seq::empty()
    };
    let magnitude = digits_value(whole) * MICROS_PER_SECOND + fraction_micros(frac);
    if whole.len() + frac.len() > 0 && all_digits(whole) && all_digits(frac) && magnitude
        <= i64::MAX {
        if negative {
            Some((-magnitude) as i64)
        } else {
            Some(magnitude as i64)
        }
    } else {
        None
    }
}

/// What the probe tool's output says: a first line with the audio
/// bitrate, a second with the duration, each taken without the blanks
/// around it, and nothing but blanks after them.
pub open spec fn probe_output_spec(out: Seq<u8>) -> Option<SourceStats> {
    let rest = after_first_line(out);
    let bitrate = unsigned_spec(trimmed(first_line(out)));
    let duration = micros_spec(trimmed(first_line(rest)));
    if bitrate is Some && duration is Some && all_space(after_first_line(rest)) {
        Some(SourceStats { duration_micros: duration.unwrap(), audio_bps: bitrate.unwrap() })
    } else {
        None
    }
}

/// A run of the probe tool as contracts speak of it.
pub enum ProbeRunView {
    NotStarted,
    Exited { success: bool, stdout: Seq<u8> },
}

impl View for ProbeRun {
    type V = ProbeRunView;

    open spec fn view(&self) -> ProbeRunView {
        match self {
            ProbeRun::NotStarted => ProbeRunView::NotStarted,
            ProbeRun::Exited { success, stdout } => ProbeRunView::Exited {
                success: *success,
                stdout: stdout@,
            },
        }
    }
}

/// What the output of a successful run gives: the figures it holds, or
/// a parse error.
pub open spec fn parsed_output(out: Seq<u8>) -> Result<SourceStats, JobError> {
    match probe_output_spec(out) {
        Some(stats) => Ok(stats),
        None => Err(JobError::ProbeParseError),
    }
}

/// What a run of the probe tool gives.
pub open spec fn probe_spec(run: ProbeRunView) -> Result<SourceStats, JobError> {
    match run {
        ProbeRunView::NotStarted => Err(JobError::ProbeUnavailable),
        ProbeRunView::Exited { success, stdout } => if success {
            parsed_output(stdout)
        } else {
            Err(JobError::ProbeFailed)
        },
    }
}

proof fn span_found(s: Seq<u8>, stop: u8, k: int)
    requires
        0 <= k <= s.len(),
        forall|i: int| 0 <= i < k ==> s[i] != stop,
        k == s.len() || s[k] == stop,
    ensures
        span_until(s, stop) == k,
    decreases k,
{
    if k > 0 {
        let t = s.drop_first();
        assert forall|i: int| 0 <= i < k - 1 implies t[i] != stop by {
            assert(t[i] == s[i + 1]);
        }
        span_found(t, stop, k - 1);
    }
}

proof fn trim_start_found(s: Seq<u8>, a: int)
    requires
        0 <= a <= s.len(),
        forall|i: int| 0 <= i < a ==> is_space(s[i]),
        a == s.len() || !is_space(s[a]),
    ensures
        trim_start(s) == s.subrange(a, s.len() as int),
    decreases a,
{
    if a == 0 {
        assert(s.subrange(0, s.len() as int) =~= s);
    } else {
        let t = s.drop_first();
        assert forall|i: int| 0 <= i < a - 1 implies is_space(t[i]) by {
            assert(t[i] == s[i + 1]);
        }
        trim_start_found(t, a - 1);
        assert(t.subrange(a - 1, t.len() as int) =~= s.subrange(a, s.len() as int));
    }
}

proof fn trim_end_found(s: Seq<u8>, b: int)
    requires
        0 <= b <= s.len(),
        forall|i: int| b <= i < s.len() ==> is_space(s[i]),
        b == 0 || !is_space(s[b - 1]),
    ensures
        trim_end(s) == s.subrange(0, b),
    decreases s.len() - b,
{
    if b == s.len() {
        assert(s.subrange(0, b) =~= s);
    } else {
        let t = s.drop_last();
        trim_end_found(t, b);
        assert(t.subrange(0, b) =~= s.subrange(0, b));
    }
}

proof fn prefix_value_is_less(s: Seq<u8>, i: int)
    requires
        0 <= i <= s.len(),
    ensures
        digits_value(s.subrange(0, i)) <= digits_value(s),
    decreases s.len() - i,
{
    if i == s.len() {
        assert(s.subrange(0, i) =~= s);
    } else {
        prefix_value_is_less(s.drop_last(), i);
        assert(s.drop_last().subrange(0, i) =~= s.subrange(0, i));
    }
}

proof fn pow10_small(n: nat)
    requires
        n <= 6,
    ensures
        1 <= pow10(n) <= 1_000_000,
        n == 6 ==> pow10(n) == 1_000_000,
{
    reveal_with_fuel(pow10, 8);
}

proof fn digits_value_bound(s: Seq<u8>)
    ensures
        digits_value(s) < pow10(s.len()),
    decreases s.len(),
{
    if s.len() > 0 {
        digits_value_bound(s.drop_last());
    }
}

fn is_space_byte(b: u8) -> (r: bool)
    ensures
        r == is_space(b),
{
    b == 32 || (9 <= b && b <= 13)
}

fn find_byte(bytes: &[u8], start: usize, end: usize, stop: u8) -> (k: usize)
    requires
        start <= end <= bytes@.len(),
    ensures
        start <= k <= end,
        k - start == span_until(bytes@.subrange(start as int, end as int), stop),
{
    let mut k: usize = start;
    while k < end && bytes[k] != stop
        invariant
            start <= k <= end <= bytes@.len(),
            forall|i: int| start <= i < k ==> bytes@[i] != stop,
        decreases end - k,
    {
        k += 1;
    }
    proof {
        span_found(bytes@.subrange(start as int, end as int), stop, k - start);
    }
    k
}

fn trim_range(bytes: &[u8], start: usize, end: usize) -> (r: (usize, usize))
    requires
        start <= end <= bytes@.len(),
    ensures
        start <= r.0 <= r.1 <= end,
        bytes@.subrange(r.0 as int, r.1 as int) == trimmed(
            bytes@.subrange(start as int, end as int),
        ),
{
    let mut a: usize = start;
    while a < end && is_space_byte(bytes[a])
        invariant
            start <= a <= end <= bytes@.len(),
            forall|i: int| start <= i < a ==> is_space(bytes@[i]),
        decreases end - a,
    {
        a += 1;
    }
    let mut b: usize = end;
    while b > a && is_space_byte(bytes[b - 1])
        invariant
            a <= b <= end <= bytes@.len(),
            forall|i: int| b <= i < end ==> is_space(bytes@[i]),
        decreases b - a,
    {
        b -= 1;
    }
    proof {
        let sub = bytes@.subrange(start as int, end as int);
        trim_start_found(sub, a - start);
        let t = sub.subrange(a - start, sub.len() as int);
        assert(t =~= bytes@.subrange(a as int, end as int));
        trim_end_found(t, b - a);
        assert(t.subrange(0, b - a) =~= bytes@.subrange(a as int, b as int));
    }
    (a, b)
}

fn all_space_range(bytes: &[u8], start: usize, end: usize) -> (r: bool)
    requires
        start <= end <= bytes@.len(),
    ensures
        r == all_space(bytes@.subrange(start as int, end as int)),
{
    let mut i: usize = start;
    while i < end
        invariant
            start <= i <= end <= bytes@.len(),
            forall|j: int| start <= j < i ==> is_space(bytes@[j]),
        decreases end - i,
    {
        if !is_space_byte(bytes[i]) {
            assert(!is_space(bytes@.subrange(start as int, end as int)[i - start]));
            return false;
        }
        i += 1;
    }
    true
}

fn all_digits_range(bytes: &[u8], start: usize, end: usize) -> (r: bool)
    requires
        start <= end <= bytes@.len(),
    ensures
        r == all_digits(bytes@.subrange(start as int, end as int)),
{
    let mut i: usize = start;
    while i < end
        invariant
            start <= i <= end <= bytes@.len(),
            forall|j: int| start <= j < i ==> is_digit(bytes@[j]),
        decreases end - i,
    {
        if bytes[i] < 48 || bytes[i] > 57 {
            assert(!is_digit(bytes@.subrange(start as int, end as int)[i - start]));
            return false;
        }
        i += 1;
    }
    true
}

/// Reads a run of digits as a number up to `limit`.
fn read_digits(bytes: &[u8], start: usize, end: usize, limit: u64) -> (r: Option<u64>)
    requires
        start <= end <= bytes@.len(),
        limit <= 1_000_000_000_000_000_000,
    ensures
        r is Some <==> all_digits(bytes@.subrange(start as int, end as int)) && digits_value(
            bytes@.subrange(start as int, end as int),
        ) <= limit,
        r is Some ==> r.unwrap() == digits_value(bytes@.subrange(start as int, end as int)),
{
    let ghost sub = bytes@.subrange(start as int, end as int);
    let mut acc: u64 = 0;
    let mut i: usize = start;
    while i < end
        invariant
            start <= i <= end <= bytes@.len(),
            limit <= 1_000_000_000_000_000_000,
            sub == bytes@.subrange(start as int, end as int),
            all_digits(bytes@.subrange(start as int, i as int)),
            acc == digits_value(bytes@.subrange(start as int, i as int)),
            acc <= limit,
        decreases end - i,
    {
        let b = bytes[i];
        if b < 48 || b > 57 {
            assert(!is_digit(sub[i - start]));
            return None;
        }
        let next: u64 = acc * 10 + (b - 48) as u64;
        proof {
            let before = bytes@.subrange(start as int, i as int);
            let p = bytes@.subrange(start as int, i + 1);
            assert(p.drop_last() =~= before);
            assert(p.last() == b);
            assert(digits_value(p) == next);
            assert forall|j: int| 0 <= j < p.len() implies is_digit(#[trigger] p[j]) by {
                if j < before.len() {
                    assert(p[j] == before[j]);
                }
            }
            assert(sub.subrange(0, i + 1 - start) =~= p);
            prefix_value_is_less(sub, i + 1 - start);
        }
        if next > limit {
            return None;
        }
        acc = next;
        i += 1;
    }
    Some(acc)
}

fn parse_unsigned_range(bytes: &[u8], start: usize, end: usize) -> (r: Option<u32>)
    requires
        start <= end <= bytes@.len(),
    ensures
        r == unsigned_spec(bytes@.subrange(start as int, end as int)),
{
    let ghost sub = bytes@.subrange(start as int, end as int);
    let mut from: usize = start;
    if start < end && bytes[start] == 43 {
        from = start + 1;
        assert(sub.drop_first() =~= bytes@.subrange(from as int, end as int));
    }
    assert(sub.len() > 0 ==> sub[0] == bytes@[start as int]);
    if from == end {
        return None;
    }
    match read_digits(bytes, from, end, 0xffff_ffff) {
        Some(v) => Some(v as u32),
        None => None,
    }
}

/// Reads the decimals of a second as microseconds.
fn read_fraction(bytes: &[u8], start: usize, end: usize) -> (r: Option<u64>)
    requires
        start <= end <= bytes@.len(),
    ensures
        r is Some <==> all_digits(bytes@.subrange(start as int, end as int)),
        r is Some ==> r.unwrap() == fraction_micros(bytes@.subrange(start as int, end as int))
            && r.unwrap() < MICROS_PER_SECOND,
{
    let ghost frac = bytes@.subrange(start as int, end as int);
    if !all_digits_range(bytes, start, end) {
        return None;
    }
    let kept: usize = if end - start >= FRACTION_DIGITS {
        FRACTION_DIGITS
    } else {
        end - start
    };
    let ghost head = bytes@.subrange(start as int, start + kept);
    proof {
        assert(head =~= frac.subrange(0, kept as int));
        assert forall|j: int| 0 <= j < head.len() implies is_digit(#[trigger] head[j]) by {
            assert(head[j] == frac[j]);
        }
        digits_value_bound(head);
        pow10_small(kept as nat);
    }
    let value: u64 = read_digits(bytes, start, start + kept, 999_999).unwrap();
    let mut scaled: u64 = value;
    let mut k: usize = kept;
    while k < FRACTION_DIGITS
        invariant
            kept <= k <= FRACTION_DIGITS,
            scaled == value * pow10((k - kept) as nat),
            scaled < pow10(k as nat),
        decreases FRACTION_DIGITS - k,
    {
        proof {
            pow10_small(k as nat);
            pow10_small((k + 1) as nat);
            assert(pow10((k + 1) as nat) == 10 * pow10(k as nat));
            assert(pow10((k + 1 - kept) as nat) == 10 * pow10((k - kept) as nat));
            assert(value * (10 * pow10((k - kept) as nat)) == (value * pow10((k - kept) as nat))
                * 10) by (nonlinear_arith);
        }
        scaled = scaled * 10;
        k += 1;
    }
    proof {
        pow10_small(FRACTION_DIGITS as nat);
        if end - start >= FRACTION_DIGITS {
            assert(pow10(0) == 1);
            assert(value * 1 == value);
        } else {
            assert(head =~= frac);
        }
    }
    Some(scaled)
}

fn parse_micros_range(bytes: &[u8], start: usize, end: usize) -> (r: Option<i64>)
    requires
        start <= end <= bytes@.len(),
    ensures
        r == micros_spec(bytes@.subrange(start as int, end as int)),
{
    let ghost sub = bytes@.subrange(start as int, end as int);
    let mut from: usize = start;
    let mut negative = false;
    if start < end {
        assert(sub[0] == bytes@[start as int]);
        if bytes[start] == 45 {
            negative = true;
            from = start + 1;
        } else if bytes[start] == 43 {
            from = start + 1;
        }
    }
    let ghost body = bytes@.subrange(from as int, end as int);
    proof {
        if from > start {
            assert(sub.drop_first() =~= body);
        } else {
            assert(sub =~= body);
        }
    }
    let point: usize = find_byte(bytes, from, end, 46);
    let frac_start: usize = if point < end {
        point + 1
    } else {
        end
    };
    let ghost whole = bytes@.subrange(from as int, point as int);
    let ghost frac = bytes@.subrange(frac_start as int, end as int);
    proof {
        assert(body.subrange(0, point - from) =~= whole);
        if point < end {
            assert(body.subrange(point - from + 1, body.len() as int) =~= frac);
        } else {
            assert(frac =~= Seq::<u8>::empty());
        }
    }
    if (point - from) + (end - frac_start) == 0 {
        return None;
    }
    let w: u64 = match read_digits(bytes, from, point, 10_000_000_000_000) {
        Some(w) => w,
        None => {
            return None;
        },
    };
    let f: u64 = match read_fraction(bytes, frac_start, end) {
        Some(f) => f,
        None => {
            return None;
        },
    };
    let magnitude: u64 = w * MICROS_PER_SECOND + f;
    if magnitude > 0x7fff_ffff_ffff_ffff {
        return None;
    }
    if negative {
        Some(-(magnitude as i64))
    } else {
        Some(magnitude as i64)
    }
}

/// Reads what the probe tool wrote to its standard output.
pub fn parse_probe_output(stdout: &[u8]) -> (r: Result<SourceStats, JobError>)
    ensures
        r == parsed_output(stdout@),
{
    let n: usize = stdout.len();
    let ghost out = stdout@;
    assert(out.subrange(0, n as int) =~= out);
    let end1: usize = find_byte(stdout, 0, n, 10);
    let (a1, b1) = trim_range(stdout, 0, end1);
    let bitrate = parse_unsigned_range(stdout, a1, b1);
    let start2: usize = if end1 < n {
        end1 + 1
    } else {
        n
    };
    let ghost rest = out.subrange(start2 as int, n as int);
    assert(rest =~= after_first_line(out));
    let end2: usize = find_byte(stdout, start2, n, 10);
    assert(first_line(rest) =~= out.subrange(start2 as int, end2 as int));
    let (a2, b2) = trim_range(stdout, start2, end2);
    let duration = parse_micros_range(stdout, a2, b2);
    let start3: usize = if end2 < n {
        end2 + 1
    } else {
        n
    };
    assert(after_first_line(rest) =~= out.subrange(start3 as int, n as int));
    let blank = all_space_range(stdout, start3, n);
    match (bitrate, duration) {
        (Some(audio_bps), Some(duration_micros)) => {
            if blank {
                Ok(SourceStats { duration_micros, audio_bps })
            } else {
                Err(JobError::ProbeParseError)
            }
        },
        _ => Err(JobError::ProbeParseError),
    }
}

/// Turns the end of a probe run into the source's figures, or into the
/// reason why there are none.
pub fn interpret_probe(run: &ProbeRun) -> (r: Result<SourceStats, JobError>)
    ensures
        r == probe_spec(run@),
{
    match run {
        ProbeRun::NotStarted => Err(JobError::ProbeUnavailable),
        ProbeRun::Exited { success, stdout } => {
            if !*success {
                Err(JobError::ProbeFailed)
            } else {
                parse_probe_output(stdout.as_slice())
            }
        },
    }
}

} // verus!
