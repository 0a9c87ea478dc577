//! Durations in configurations, written as `1h30m5s`, `13ms`, `7ns`.

use vstd::prelude::*;

use crate::number::{
    all_digits, decimal, digits_value, is_digit, lemma_decimal_digits, lemma_decimal_roundtrip, parse_u64,
    parse_unsigned, push_decimal, unsigned_digits,
};
use crate::text::{chars_of, owned, push_str, string_of_range};

verus! {

/// A span of time: whole seconds and the nanoseconds beyond them.
#[derive(Debug, Clone, Copy, PartialEq, Eq, Structural)]
pub struct MyDuration {
    pub secs: u64,
    pub nanos: u32,
}

/// One nanosecond less than a second.
pub open spec fn nanos_per_sec() -> int {
    1_000_000_000
}

impl MyDuration {
    /// The nanoseconds stay below a second.
    pub open spec fn wf(&self) -> bool {
        self.nanos < 1_000_000_000
    }

    /// The whole span in nanoseconds.
    pub open spec fn total_nanos(&self) -> int {
        self.secs * nanos_per_sec() + self.nanos
    }

    /// A span of `secs` seconds.
    pub fn from_secs(secs: u64) -> (r: MyDuration)
        ensures
            r.wf(),
            r.secs == secs,
            r.nanos == 0,
    {
        MyDuration { secs, nanos: 0 }
    }

    /// A span of `secs` seconds and `nanos` nanoseconds.
    pub fn new(secs: u64, nanos: u32) -> (r: MyDuration)
        requires
            nanos < 1_000_000_000,
        ensures
            r.wf(),
            r.secs == secs,
            r.nanos == nanos,
    {
        MyDuration { secs, nanos }
    }
}

/// A number with its unit, or nothing for zero.
pub open spec fn part(value: nat, unit: Seq<char>) -> Seq<char> {
    if value > 0 {
        decimal(value) + unit
    } else {
        Seq::empty()
    }
}

/// The text of the sub-second part: milliseconds when they are whole,
/// nanoseconds otherwise, nothing for zero.
pub open spec fn subsec_text(nanos: nat) -> Seq<char> {
    if nanos > 0 {
        if nanos % 1_000_000 == 0 {
            part(nanos / 1_000_000, "ms"@)
        } else {
            part(nanos, "ns"@)
        }
    } else {
        Seq::empty()
    }
}

/// The text of a duration: hours, minutes, seconds, then the sub-second
/// part, each left out when zero; `0s` for the empty span.
pub open spec fn duration_text(secs: nat, nanos: nat) -> Seq<char> {
    let body = part(secs / 3600, "h"@) + part((secs % 3600) / 60, "m"@) + part(secs % 60, "s"@)
        + subsec_text(nanos);
    if body.len() == 0 {
        "0s"@
    } else {
        body
    }
}

/// Appends a number with its unit, or nothing for zero.
fn push_part(out: &mut String, value: u64, unit: &str)
    ensures
        final(out)@ == old(out)@ + part(value as nat, unit@),
{
    if value > 0 {
        push_decimal(out, value);
        push_str(out, unit);
        assert(final(out)@ =~= old(out)@ + part(value as nat, unit@));
    } else {
        assert(final(out)@ =~= old(out)@ + part(value as nat, unit@));
    }
}

impl MyDuration {
    /// The duration as written in configuration files.
    pub fn to_text(&self) -> (r: String)
        ensures
            r@ == duration_text(self.secs as nat, self.nanos as nat),
    {
        let mut out = String::new();
        let mut remaining: u64 = self.secs;
        push_part(&mut out, remaining / 3600, "h");
        remaining = remaining % 3600;
        push_part(&mut out, remaining / 60, "m");
        remaining = remaining % 60;
        push_part(&mut out, remaining, "s");
        let ghost before_sub = out@;
        if self.nanos > 0 {
            if self.nanos % 1_000_000 == 0 {
                push_part(&mut out, (self.nanos / 1_000_000) as u64, "ms");
            } else {
                push_part(&mut out, self.nanos as u64, "ns");
            }
        }
        assert(out@ =~= before_sub + subsec_text(self.nanos as nat));
        assert(self.secs % 3600 % 60 == self.secs % 60);
        if out.unicode_len() == 0 {
            out = owned("0s");
        }
        out
    }
}

/// The units of a duration.
#[derive(Debug, Clone, Copy, PartialEq, Eq, Structural)]
pub enum DurationUnit {
    Ns,
    Ms,
    S,
    M,
    H,
}

/// The unit a text ends with and the text before it; the suffixes are tried
/// in the order `ns`, `ms`, `s`, `m`, `h`.
pub open spec fn strip_unit(w: Seq<char>) -> Option<(Seq<char>, DurationUnit)> {
    let n = w.len() as int;
    if n >= 2 && w[n - 2] == 'n' && w[n - 1] == 's' {
        Some((w.subrange(0, n - 2), DurationUnit::Ns))
    } else if n >= 2 && w[n - 2] == 'm' && w[n - 1] == 's' {
        Some((w.subrange(0, n - 2), DurationUnit::Ms))
    } else if n >= 1 && w[n - 1] == 's' {
        Some((w.subrange(0, n - 1), DurationUnit::S))
    } else if n >= 1 && w[n - 1] == 'm' {
        Some((w.subrange(0, n - 1), DurationUnit::M))
    } else if n >= 1 && w[n - 1] == 'h' {
        Some((w.subrange(0, n - 1), DurationUnit::H))
    } else {
        None
    }
}

/// The position of the last character of `b` that is not a digit.
pub open spec fn last_non_digit(b: Seq<char>) -> Option<int>
    decreases b.len(),
{
    if b.len() == 0 {
        None
    } else if !is_digit(b.last()) {
        Some(b.len() - 1)
    } else {
        last_non_digit(b.drop_last())
    }
}

/// Where the number before a unit starts: after the last non-digit.
pub open spec fn number_start(b: Seq<char>) -> int {
    match last_non_digit(b) {
        Some(i) => i + 1,
        None => 0,
    }
}

/// `last_non_digit` finds the last non-digit.
pub proof fn lemma_last_non_digit(b: Seq<char>)
    ensures
        match last_non_digit(b) {
            Some(i) => 0 <= i < b.len() && !is_digit(b[i]) && forall|j: int| i < j < b.len() ==> is_digit(b[j]),
            None => forall|j: int| 0 <= j < b.len() ==> is_digit(b[j]),
        },
        0 <= number_start(b) <= b.len(),
    decreases b.len(),
{
    if b.len() > 0 && is_digit(b.last()) {
        lemma_last_non_digit(b.drop_last());
        assert forall|j: int| 0 <= j < b.len() - 1 implies b[j] == b.drop_last()[j] by {}
    }
}

/// A position with a non-digit followed only by digits is the last non-digit;
/// when there is none, the whole text is digits.
pub proof fn lemma_last_non_digit_is(b: Seq<char>, k: int)
    requires
        0 <= k <= b.len(),
        k > 0 ==> !is_digit(b[k - 1]),
        forall|j: int| k <= j < b.len() ==> is_digit(b[j]),
    ensures
        number_start(b) == k,
    decreases b.len(),
{
    lemma_last_non_digit(b);
    if b.len() > 0 && k < b.len() {
        assert(is_digit(b.last()));
        lemma_last_non_digit_is(b.drop_last(), k);
    }
}

/// The message for a text that does not end with a unit.
pub open spec fn unrecognized_message(w: Seq<char>) -> Seq<char> {
    "unrecognized unit. Unparsed: "@ + w
}

/// The message for a number that does not fit.
pub open spec fn number_message(d: Seq<char>) -> Seq<char> {
    "parsing of "@ + d + " failed"@
}

/// `n` hours or minutes overflow when turned into seconds.
pub open spec fn unit_overflows(u: DurationUnit, n: int) -> bool {
    match u {
        DurationUnit::H => n * 3600 > u64::MAX,
        DurationUnit::M => n * 60 > u64::MAX,
        _ => false,
    }
}

/// `n` of unit `u`, in nanoseconds.
pub open spec fn unit_nanos(u: DurationUnit, n: int) -> int {
    match u {
        DurationUnit::H => n * 3600 * 1_000_000_000,
        DurationUnit::M => n * 60 * 1_000_000_000,
        DurationUnit::S => n * 1_000_000_000,
        DurationUnit::Ms => n * 1_000_000,
        DurationUnit::Ns => n,
    }
}

/// The first span, in nanoseconds, that a duration cannot hold.
pub open spec fn max_total() -> int {
    (u64::MAX + 1) * 1_000_000_000
}

/// What reading a duration text ends with.
pub enum DurationOutcome {
    /// The total span, in nanoseconds.
    Total(nat),
    /// The text is refused with this message.
    Failure(Seq<char>),
    /// A part or the sum does not fit in a duration.
    Overflow,
}

/// Reads a duration text from its end: each step strips a unit and the
/// digits before it, adds that many units to `acc`, and goes on with what is
/// left, until nothing is.
pub open spec fn scan_duration(w: Seq<char>, acc: nat) -> DurationOutcome
    decreases w.len(),
{
    if w.len() == 0 {
        DurationOutcome::Total(acc)
    } else {
        match strip_unit(w) {
            None => DurationOutcome::Failure(unrecognized_message(w)),
            Some((before, u)) => {
                let k = number_start(before);
                proof {
                    lemma_last_non_digit(before);
                }
                let digits = before.subrange(k, before.len() as int);
                match parse_unsigned(digits, u64::MAX as int) {
                    None => DurationOutcome::Failure(number_message(digits)),
                    Some(n) => if unit_overflows(u, n) || acc + unit_nanos(u, n) >= max_total() {
                        DurationOutcome::Overflow
                    } else {
                        scan_duration(before.subrange(0, k), (acc + unit_nanos(u, n)) as nat)
                    },
                }
            },
        }
    }
}

/// What a duration text denotes: a duration, or the message it is refused with.
pub open spec fn duration_spec(w: Seq<char>) -> Option<Result<MyDuration, Seq<char>>> {
    match scan_duration(w, 0) {
        DurationOutcome::Total(t) => Some(Ok(MyDuration {
            secs: (t / 1_000_000_000) as u64,
            nanos: (t % 1_000_000_000) as u32,
        })),
        DurationOutcome::Failure(m) => Some(Err(m)),
        DurationOutcome::Overflow => None,
    }
}

/// What reading a duration text gave.
#[derive(Debug)]
pub enum DurationScan {
    Total(MyDuration),
    Failure(String),
    Overflow,
}

/// Whether `v[..end]` ends with the character pair `a`, `b`.
fn ends_with_pair(v: &Vec<char>, end: usize, a: char, b: char) -> (r: bool)
    requires
        end <= v.len(),
    ensures
        r == (end >= 2 && v@[end - 2] == a && v@[end - 1] == b),
{
    end >= 2 && v[end - 2] == a && v[end - 1] == b
}

/// Adds `secs` seconds and `nanos` nanoseconds to `acc`, or `None` when the
/// sum does not fit (`Duration::checked_add`).
fn add_span(acc: MyDuration, secs: u64, nanos: u32) -> (r: Option<MyDuration>)
    requires
        acc.wf(),
        nanos < 1_000_000_000,
    ensures
        acc.total_nanos() + secs * 1_000_000_000 + nanos >= max_total() ==> r is None,
        acc.total_nanos() + secs * 1_000_000_000 + nanos < max_total() ==> (r matches Some(d) && d.wf()
            && d.total_nanos() == acc.total_nanos() + secs * 1_000_000_000 + nanos),
{
    let s = match acc.secs.checked_add(secs) {
        Some(s) => s,
        None => return None,
    };
    let n: u32 = acc.nanos + nanos;
    if n >= 1_000_000_000 {
        let s2 = match s.checked_add(1) {
            Some(s2) => s2,
            None => return None,
        };
        Some(MyDuration { secs: s2, nanos: n - 1_000_000_000 })
    } else {
        Some(MyDuration { secs: s, nanos: n })
    }
}

/// Reads a duration text (see `scan_duration`).
pub fn scan_duration_text(text: &str) -> (r: DurationScan)
    ensures
        match scan_duration(text@, 0) {
            DurationOutcome::Total(t) => r matches DurationScan::Total(d) && d.wf() && d.total_nanos() == t,
            DurationOutcome::Failure(m) => r matches DurationScan::Failure(e) && e@ == m,
            DurationOutcome::Overflow => r is Overflow,
        },
{
    let v = chars_of(text);
    let mut end: usize = v.len();
    let mut acc = MyDuration { secs: 0, nanos: 0 };
    assert(v@.take(end as int) =~= text@);
    while end > 0
        invariant
            end <= v.len(),
            v@ == text@,
            acc.wf(),
            acc.total_nanos() < max_total(),
            scan_duration(text@, 0) == scan_duration(v@.take(end as int), acc.total_nanos() as nat),
        decreases end,
    {
        let ghost w = v@.take(end as int);
        let (unit, unit_len) = if ends_with_pair(&v, end, 'n', 's') {
            (DurationUnit::Ns, 2usize)
        } else if ends_with_pair(&v, end, 'm', 's') {
            (DurationUnit::Ms, 2usize)
        } else if v[end - 1] == 's' {
            (DurationUnit::S, 1usize)
        } else if v[end - 1] == 'm' {
            (DurationUnit::M, 1usize)
        } else if v[end - 1] == 'h' {
            (DurationUnit::H, 1usize)
        } else {
            let mut message = owned("unrecognized unit. Unparsed: ");
            let rest = string_of_range(&v, 0, end);
            push_str(&mut message, rest.as_str());
            proof {
                reveal_strlit("unrecognized unit. Unparsed: ");
            }
            return DurationScan::Failure(message);
        };
        let before_end: usize = end - unit_len;
        let ghost before = w.subrange(0, before_end as int);
        assert(strip_unit(w) == Some((before, unit)));
        let mut k: usize = before_end;
        while k > 0 && '0' <= v[k - 1] && v[k - 1] <= '9'
            invariant
                k <= before_end <= end <= v.len(),
                forall|j: int| k <= j < before_end ==> is_digit(v@[j]),
            decreases k,
        {
            k = k - 1;
        }
        proof {
            assert forall|j: int| k <= j < before.len() implies is_digit(before[j]) by {
                assert(before[j] == v@[j]);
            }
            if k > 0 {
                assert(before[k - 1] == v@[k - 1]);
            }
            lemma_last_non_digit_is(before, k as int);
        }
        let digits = string_of_range(&v, k, before_end);
        assert(digits@ =~= before.subrange(k as int, before.len() as int));
        let n = match parse_u64(digits.as_str()) {
            Some(n) => n,
            None => {
                let mut message = owned("parsing of ");
                push_str(&mut message, digits.as_str());
                push_str(&mut message, " failed");
                proof {
                    reveal_strlit("parsing of ");
                    reveal_strlit(" failed");
                }
                return DurationScan::Failure(message);
            },
        };
        let (secs, nanos): (u64, u32) = match unit {
            DurationUnit::H => {
                if n > u64::MAX / 3600 {
                    return DurationScan::Overflow;
                }
                (n * 3600, 0)
            },
            DurationUnit::M => {
                if n > u64::MAX / 60 {
                    return DurationScan::Overflow;
                }
                (n * 60, 0)
            },
            DurationUnit::S => (n, 0),
            DurationUnit::Ms => (n / 1000, ((n % 1000) * 1_000_000) as u32),
            DurationUnit::Ns => (n / 1_000_000_000, (n % 1_000_000_000) as u32),
        };
        assert(secs * 1_000_000_000 + nanos == unit_nanos(unit, n as int));
        match add_span(acc, secs, nanos) {
            Some(d) => {
                acc = d;
            },
            None => {
                return DurationScan::Overflow;
            },
        }
        assert(before.subrange(0, k as int) =~= v@.take(k as int));
        end = k;
    }
    DurationScan::Total(acc)
}

/// Reads a duration text, such as `1h30m5s`, `13ms` or `7ns`: from its end,
/// each unit (`ns`, `ms`, `s`, `m` or `h`) with the digits before it adds that
/// many units. A text that does not end with a unit, or whose digits are
/// missing or too large, is refused with a message.
pub fn parse_duration(text: &str) -> (r: Result<MyDuration, String>)
    requires
        duration_spec(text@) is Some,
    ensures
        match duration_spec(text@) {
            Some(Ok(d)) => r matches Ok(x) && x == d && x.wf(),
            Some(Err(m)) => r matches Err(e) && e@ == m,
            None => false,
        },
{
    match scan_duration_text(text) {
        DurationScan::Total(d) => Ok(d),
        DurationScan::Failure(m) => Err(m),
        DurationScan::Overflow => Err(owned("")),
    }
}

/// Whether a duration text holds a part or a sum too large for a duration.
pub fn duration_overflows(text: &str) -> (r: bool)
    ensures
        r == (duration_spec(text@) is None),
{
    match scan_duration_text(text) {
        DurationScan::Overflow => true,
        _ => false,
    }
}

/// The text of a unit.
pub open spec fn unit_text(u: DurationUnit) -> Seq<char> {
    match u {
        DurationUnit::Ns => seq!['n', 's'],
        DurationUnit::Ms => seq!['m', 's'],
        DurationUnit::S => seq!['s'],
        DurationUnit::M => seq!['m'],
        DurationUnit::H => seq!['h'],
    }
}

/// A number with its unit, or nothing for zero.
pub open spec fn segment(v: nat, u: DurationUnit) -> Seq<char> {
    if v > 0 {
        decimal(v) + unit_text(u)
    } else {
        Seq::empty()
    }
}

/// The text is empty or ends with something else than a digit.
pub open spec fn ends_outside_number(p: Seq<char>) -> bool {
    p.len() == 0 || !is_digit(p.last())
}

/// Reading a number and its unit at the end of a text adds them and goes on
/// with the text before.
pub proof fn lemma_scan_unit(prefix: Seq<char>, n: nat, u: DurationUnit, acc: nat)
    requires
        ends_outside_number(prefix),
        n <= u64::MAX,
        !unit_overflows(u, n as int),
        acc + unit_nanos(u, n as int) < max_total(),
    ensures
        scan_duration(prefix + decimal(n) + unit_text(u), acc) == scan_duration(
            prefix,
            (acc + unit_nanos(u, n as int)) as nat,
        ),
{
    let digits = decimal(n);
    lemma_decimal_digits(n);
    lemma_decimal_roundtrip(n, u64::MAX as int);
    let before = prefix + digits;
    let w = before + unit_text(u);
    let len = w.len() as int;
    let ul = unit_text(u).len() as int;
    assert(w.subrange(0, len - ul) =~= before);
    assert(is_digit(before.last())) by {
        assert(before.last() == digits[digits.len() - 1]);
    }
    assert(before.last() == w[len - ul - 1]);
    assert(strip_unit(w) == Some((before, u)));
    assert forall|j: int| prefix.len() <= j < before.len() implies is_digit(before[j]) by {
        assert(before[j] == digits[j - prefix.len()]);
    }
    if prefix.len() > 0 {
        assert(before[prefix.len() - 1] == prefix.last());
    }
    lemma_last_non_digit_is(before, prefix.len() as int);
    assert(before.subrange(prefix.len() as int, before.len() as int) =~= digits);
    assert(before.subrange(0, prefix.len() as int) =~= prefix);
}

/// Reading a segment at the end of a text adds its span and goes on with the
/// text before.
pub proof fn lemma_scan_segment(prefix: Seq<char>, v: nat, u: DurationUnit, acc: nat)
    requires
        ends_outside_number(prefix),
        v <= u64::MAX,
        !unit_overflows(u, v as int),
        acc + unit_nanos(u, v as int) < max_total(),
    ensures
        scan_duration(prefix + segment(v, u), acc) == scan_duration(prefix, (acc + unit_nanos(u, v as int)) as nat),
        ends_outside_number(prefix + segment(v, u)),
{
    if v > 0 {
        assert(prefix + segment(v, u) =~= prefix + decimal(v) + unit_text(u));
        lemma_scan_unit(prefix, v, u, acc);
        let t = unit_text(u);
        assert((prefix + segment(v, u)).last() == t[t.len() - 1]);
    } else {
        assert(prefix + segment(v, u) =~= prefix);
    }
}

/// The text of a duration is made of its segments.
pub proof fn lemma_duration_segments(secs: nat, nanos: nat)
    ensures
        part(secs / 3600, "h"@) == segment(secs / 3600, DurationUnit::H),
        part((secs % 3600) / 60, "m"@) == segment((secs % 3600) / 60, DurationUnit::M),
        part(secs % 60, "s"@) == segment(secs % 60, DurationUnit::S),
        subsec_text(nanos) == (if nanos > 0 && nanos % 1_000_000 == 0 {
            segment(nanos / 1_000_000, DurationUnit::Ms)
        } else {
            segment(nanos, DurationUnit::Ns)
        }),
{
    reveal_strlit("h");
    reveal_strlit("m");
    reveal_strlit("s");
    reveal_strlit("ms");
    reveal_strlit("ns");
    assert("h"@ =~= unit_text(DurationUnit::H));
    assert("m"@ =~= unit_text(DurationUnit::M));
    assert("s"@ =~= unit_text(DurationUnit::S));
    assert("ms"@ =~= unit_text(DurationUnit::Ms));
    assert("ns"@ =~= unit_text(DurationUnit::Ns));
}

/// Reading back the text of a duration gives that duration.
pub proof fn lemma_duration_text_roundtrip(d: MyDuration)
    requires
        d.wf(),
    ensures
        duration_spec(duration_text(d.secs as nat, d.nanos as nat)) == Some(Ok::<MyDuration, Seq<char>>(d)),
{
    let secs = d.secs as nat;
    let nanos = d.nanos as nat;
    let h = secs / 3600;
    let m = (secs % 3600) / 60;
    let s = secs % 60;
    lemma_duration_segments(secs, nanos);
    let (sub_v, sub_u) = if nanos > 0 && nanos % 1_000_000 == 0 {
        (nanos / 1_000_000, DurationUnit::Ms)
    } else {
        (nanos, DurationUnit::Ns)
    };
    assert(unit_nanos(sub_u, sub_v as int) == nanos);
    let a = segment(h, DurationUnit::H);
    let b = segment(m, DurationUnit::M);
    let c = segment(s, DurationUnit::S);
    let e = segment(sub_v, sub_u);
    let body = a + b + c + e;
    assert(secs == h * 3600 + m * 60 + s);
    let total = secs * 1_000_000_000 + nanos;
    assert(total < max_total());
    let empty = Seq::<char>::empty();
    assert(ends_outside_number(empty));
    assert(empty + a =~= a);
    lemma_scan_segment(empty, h, DurationUnit::H, (m * 60 * 1_000_000_000 + s * 1_000_000_000 + nanos) as nat);
    lemma_scan_segment(a, m, DurationUnit::M, (s * 1_000_000_000 + nanos) as nat);
    lemma_scan_segment(a + b, s, DurationUnit::S, nanos);
    lemma_scan_segment(a + b + c, sub_v, sub_u, 0);
    assert(scan_duration(body, 0) == DurationOutcome::Total(total));
    if body.len() == 0 {
        assert(h == 0 && m == 0 && s == 0 && nanos == 0);
        reveal_strlit("0s");
        let zero = empty + decimal(0) + unit_text(DurationUnit::S);
        assert(decimal(0) =~= seq!['0']);
        assert("0s"@ =~= zero);
        lemma_scan_unit(empty, 0, DurationUnit::S, 0);
    }
    assert(total / 1_000_000_000 == secs);
    assert(total % 1_000_000_000 == nanos);
}

} // verus!
