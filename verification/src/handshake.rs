//! The port handshake: discovering the backend's dynamically assigned port
//! from a bounded prefix of its output.
//!
//! The launched sidecar announces its listening port by printing a line of
//! the exact form `PORT:<decimal-port>` among its first lines of output.
//! The reader inspects at most [`HANDSHAKE_LINE_BUDGET`] lines; a line that
//! begins with `PORT:` whose remainder, trimmed of surrounding whitespace,
//! parses as a port number in the valid range 1-65535 yields that port
//! immediately, and malformed candidate lines are skipped rather than
//! treated as fatal. A value of zero is the auto-assign request, never an
//! announced port, so a `PORT:0` line is out of range and skipped too.
//!
//! Lines are handled as byte strings, exactly as they come off the child's
//! output pipe (without the line terminator). Deliberately, the whitespace
//! trimmed around the digits is ASCII only (space and the ASCII control
//! whitespace): a multi-byte Unicode space is not recognized and makes the
//! candidate malformed, hence skipped like any other.

use vstd::prelude::*;

verus! {

/// How many lines of child output the handshake inspects before giving up.
pub const HANDSHAKE_LINE_BUDGET: usize = 10;

/// ASCII whitespace, the characters trimmed around the port digits.
pub open spec fn is_space(b: u8) -> bool {
    b == 32 || b == 9 || b == 10 || b == 13 || b == 11 || b == 12
}

/// An ASCII decimal digit.
pub open spec fn is_digit(b: u8) -> bool {
    48 <= b && b <= 57
}

pub open spec fn all_digits(s: Seq<u8>) -> bool {
    forall|i: int| 0 <= i < s.len() ==> is_digit(#[trigger] s[i])
}

/// `s` without its leading whitespace.
pub open spec fn trim_front(s: Seq<u8>) -> Seq<u8>
    decreases s.len(),
{
    if s.len() > 0 && is_space(s[0]) {
        trim_front(s.subrange(1, s.len() as int))
    } else {
        s
    }
}

/// `s` without its trailing whitespace.
pub open spec fn trim_back(s: Seq<u8>) -> Seq<u8>
    decreases s.len(),
{
    if s.len() > 0 && is_space(s[s.len() - 1]) {
        trim_back(s.subrange(0, s.len() - 1))
    } else {
        s
    }
}

/// `s` without surrounding whitespace.
pub open spec fn trimmed(s: Seq<u8>) -> Seq<u8> {
    trim_back(trim_front(s))
}

/// Value of a string of decimal digits (most significant first).
pub open spec fn digits_value(s: Seq<u8>) -> int
    decreases s.len(),
{
    if s.len() == 0 {
        0
    } else {
        digits_value(s.subrange(0, s.len() - 1)) * 10 + (s[s.len() - 1] - 48)
    }
}

/// The digits of a number as integer parsing accepts it: an optional
/// leading `+` sign is allowed and discarded.
pub open spec fn numeric_body(s: Seq<u8>) -> Seq<u8> {
    if s.len() > 0 && s[0] == 43 {
        s.subrange(1, s.len() as int)
    } else {
        s
    }
}

/// What parsing `s` as a port number yields: an optional `+`, then at
/// least one decimal digit, with a value in the valid port range 1-65535.
/// Zero is the auto-assign request, never an announced port, so it is out
/// of range here like any value above 65535.
pub open spec fn parse_port_value(s: Seq<u8>) -> Option<u16> {
    let b = numeric_body(s);
    if b.len() > 0 && all_digits(b) && 1 <= digits_value(b) <= 65535 {
        Some(digits_value(b) as u16)
    } else {
        None
    }
}

/// Whether `line` begins with the literal prefix `PORT:`.
pub open spec fn has_port_prefix(line: Seq<u8>) -> bool {
    line.len() >= 5 && line[0] == 80 && line[1] == 79 && line[2] == 82 && line[3] == 84 && line[4]
        == 58
}

/// What the handshake makes of one line: the announced port, if the line is
/// a well-formed port announcement.
pub open spec fn parse_port_line(line: Seq<u8>) -> Option<u16> {
    if has_port_prefix(line) {
        parse_port_value(trimmed(line.subrange(5, line.len() as int)))
    } else {
        None
    }
}

/// If the first `k` bytes of `s` are whitespace and byte `k` (if any) is
/// not, trimming the front of `s` drops exactly those `k` bytes.
proof fn lemma_trim_front_is_subrange(s: Seq<u8>, k: int)
    requires
        0 <= k <= s.len(),
        forall|i: int| 0 <= i < k ==> is_space(#[trigger] s[i]),
        k == s.len() || !is_space(s[k]),
    ensures
        trim_front(s) == s.subrange(k, s.len() as int),
    decreases k,
{
    if k == 0 {
        assert(s.subrange(0, s.len() as int) =~= s);
    } else {
        let t = s.subrange(1, s.len() as int);
        lemma_trim_front_is_subrange(t, k - 1);
        assert(t.subrange(k - 1, t.len() as int) =~= s.subrange(k, s.len() as int));
    }
}

/// If the bytes of `s` from `k` on are whitespace and byte `k - 1` (if any)
/// is not, trimming the back of `s` keeps exactly the first `k` bytes.
proof fn lemma_trim_back_is_subrange(s: Seq<u8>, k: int)
    requires
        0 <= k <= s.len(),
        forall|i: int| k <= i < s.len() ==> is_space(#[trigger] s[i]),
        k == 0 || !is_space(s[k - 1]),
    ensures
        trim_back(s) == s.subrange(0, k),
    decreases s.len() - k,
{
    if k == s.len() {
        assert(s.subrange(0, s.len() as int) =~= s);
    } else {
        let t = s.subrange(0, s.len() - 1);
        lemma_trim_back_is_subrange(t, k);
        assert(t.subrange(0, k) =~= s.subrange(0, k));
    }
}

/// Parse one line of child output as a port announcement.
///
/// Returns the announced port exactly when the line has the `PORT:` prefix
/// and its remainder, trimmed of surrounding ASCII whitespace, is a decimal
/// port in the valid range 1-65535 (an optional leading `+` is accepted).
pub fn parse_port_line_bytes(line: &Vec<u8>) -> (r: Option<u16>)
    ensures
        r == parse_port_line(line@),
{
    let n = line.len();
    if n < 5 {
        return None;
    }
    if !(line[0] == 80 && line[1] == 79 && line[2] == 82 && line[3] == 84 && line[4] == 58) {
        return None;
    }
    let ghost rest = line@.subrange(5, n as int);

    // Find the bounds of the remainder with surrounding whitespace trimmed.
    let mut lo: usize = 5;
    while lo < n && (line[lo] == 32 || line[lo] == 9 || line[lo] == 10 || line[lo] == 13 || line[lo]
        == 11 || line[lo] == 12)
        invariant
            5 <= lo <= n,
            n == line@.len(),
            forall|i: int| 5 <= i < lo ==> is_space(#[trigger] line@[i]),
        decreases n - lo,
    {
        lo = lo + 1;
    }
    let mut hi: usize = n;
    while hi > lo && (line[hi - 1] == 32 || line[hi - 1] == 9 || line[hi - 1] == 10 || line[hi - 1]
        == 13 || line[hi - 1] == 11 || line[hi - 1] == 12)
        invariant
            lo <= hi <= n,
            n == line@.len(),
            forall|i: int| hi <= i < n ==> is_space(#[trigger] line@[i]),
        decreases hi,
    {
        hi = hi - 1;
    }
    proof {
        lemma_trim_front_is_subrange(rest, lo - 5);
        assert(rest.subrange(lo - 5, rest.len() as int) =~= line@.subrange(lo as int, n as int));
        lemma_trim_back_is_subrange(line@.subrange(lo as int, n as int), hi - lo);
        assert(line@.subrange(lo as int, n as int).subrange(0, hi - lo) =~= line@.subrange(
            lo as int,
            hi as int,
        ));
        assert(trimmed(rest) == line@.subrange(lo as int, hi as int));
    }

    // Skip an optional leading '+' sign.
    let start: usize = if lo < hi && line[lo] == 43 {
        lo + 1
    } else {
        lo
    };
    let ghost body = line@.subrange(start as int, hi as int);
    proof {
        assert(numeric_body(trimmed(rest)) =~= body);
    }
    if start == hi {
        // Nothing but the sign (or nothing at all): not a number.
        return None;
    }

    // Accumulate the digits' value, freezing the accumulator once the value
    // has exceeded the largest port: appending digits cannot shrink it.
    let mut i: usize = start;
    let mut acc: u32 = 0;
    while i < hi
        invariant
            start <= i <= hi <= n,
            n == line@.len(),
            has_port_prefix(line@),
            rest == line@.subrange(5, n as int),
            numeric_body(trimmed(rest)) == body,
            body.len() > 0,
            body == line@.subrange(start as int, hi as int),
            all_digits(body.subrange(0, i - start)),
            digits_value(body.subrange(0, i - start)) <= 65535 ==> acc == digits_value(
                body.subrange(0, i - start),
            ),
            digits_value(body.subrange(0, i - start)) > 65535 ==> acc > 65535,
            acc <= 655359,
        decreases hi - i,
    {
        let b = line[i];
        if b < 48 || b > 57 {
            proof {
                assert(body[i - start] == b);
                assert(!all_digits(body));
            }
            return None;
        }
        let ghost pre = body.subrange(0, i - start);
        proof {
            assert(body.subrange(0, i + 1 - start).subrange(0, i - start) =~= pre);
            assert(body.subrange(0, i + 1 - start) =~= pre.push(b));
            assert(body.subrange(0, i + 1 - start).subrange(
                0,
                body.subrange(0, i + 1 - start).len() - 1,
            ) =~= pre);
        }
        if acc <= 65535 {
            acc = acc * 10 + ((b - 48) as u32);
        }
        i = i + 1;
    }
    proof {
        assert(body.subrange(0, hi - start) =~= body);
    }
    if 1 <= acc && acc <= 65535 {
        Some(acc as u16)
    } else {
        None
    }
}

/// No valid port announcement stands among the first `n` lines.
pub open spec fn no_port_in_first(lines: Seq<Vec<u8>>, n: int) -> bool {
    forall|i: int| 0 <= i < n ==> parse_port_line((#[trigger] lines[i])@) is None
}

/// What one fed line tells the reader's driver to do next.
#[derive(Clone, Copy, PartialEq, Eq, Structural, Debug)]
pub enum HandshakeStep {
    /// The line announced this port; stop reading.
    Found(u16),
    /// Not a valid announcement and budget remains; read another line.
    Continue,
    /// Not a valid announcement and the budget is spent; give up.
    Exhausted,
}

/// Incremental handshake over a stream of lines.
///
/// The driver reads lines from the child's output one at a time — so that
/// no line beyond the decisive one is ever consumed — and feeds each to the
/// reader until it answers `Found` or `Exhausted`.
pub struct HandshakeReader {
    /// How many lines have been fed so far; never exceeds the budget.
    pub lines_seen: usize,
}

impl HandshakeReader {
    pub fn new() -> (r: Self)
        ensures
            r.lines_seen == 0,
    {
        HandshakeReader { lines_seen: 0 }
    }

    /// Judge the next line of child output.
    pub fn feed_line(&mut self, line: &Vec<u8>) -> (step: HandshakeStep)
        requires
            old(self).lines_seen < HANDSHAKE_LINE_BUDGET,
        ensures
            final(self).lines_seen == old(self).lines_seen + 1,
            match parse_port_line(line@) {
                Some(p) => step == HandshakeStep::Found(p),
                None => step == if old(self).lines_seen + 1 < HANDSHAKE_LINE_BUDGET {
                    HandshakeStep::Continue
                } else {
                    HandshakeStep::Exhausted
                },
            },
    {
        self.lines_seen = self.lines_seen + 1;
        match parse_port_line_bytes(line) {
            Some(p) => HandshakeStep::Found(p),
            None => if self.lines_seen < HANDSHAKE_LINE_BUDGET {
                HandshakeStep::Continue
            } else {
                HandshakeStep::Exhausted
            },
        }
    }
}

/// Result of scanning a prefix of the child's output.
pub struct ScanOutcome {
    /// The discovered port, if any line within the budget announced one.
    pub port: Option<u16>,
    /// How many lines were consumed before the scan stopped.
    pub lines_read: usize,
}

/// Scan the given lines as the handshake would: inspect at most
/// [`HANDSHAKE_LINE_BUDGET`] lines, stop at the first valid port
/// announcement, and skip malformed lines.
///
/// The contract pins the scan down completely: a found port is the first
/// valid announcement and nothing past it was read; failure means every
/// line within the budget was inspected and none was valid.
pub fn scan_lines(lines: &Vec<Vec<u8>>) -> (r: ScanOutcome)
    ensures
        r.lines_read <= lines@.len(),
        r.lines_read <= HANDSHAKE_LINE_BUDGET,
        match r.port {
            Some(p) => r.lines_read >= 1 && parse_port_line(lines@[r.lines_read - 1]@) == Some(p)
                && no_port_in_first(lines@, r.lines_read - 1),
            None => (r.lines_read == lines@.len() || r.lines_read == HANDSHAKE_LINE_BUDGET)
                && no_port_in_first(lines@, r.lines_read as int),
        },
        // The first valid announcement within the budget, if any, is found,
        // however many malformed candidates stand before it.
        forall|i: int|
            0 <= i < lines@.len() && i < HANDSHAKE_LINE_BUDGET && no_port_in_first(lines@, i) && (
            #[trigger] parse_port_line(lines@[i]@)) is Some ==> r.port == parse_port_line(lines@[i]@)
                && r.lines_read == i + 1,
{
    let mut reader = HandshakeReader::new();
    let mut idx: usize = 0;
    while idx < lines.len() && idx < HANDSHAKE_LINE_BUDGET
        invariant
            idx <= lines@.len(),
            idx <= HANDSHAKE_LINE_BUDGET,
            reader.lines_seen == idx,
            no_port_in_first(lines@, idx as int),
        decreases lines@.len() - idx,
    {
        let step = reader.feed_line(&lines[idx]);
        idx = idx + 1;
        match step {
            HandshakeStep::Found(p) => {
                return ScanOutcome { port: Some(p), lines_read: idx };
            },
            _ => {},
        }
    }
    ScanOutcome { port: None, lines_read: idx }
}

} // verus!
