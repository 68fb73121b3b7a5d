//! The fixed-size commitment value ("state root") and its textual form:
//! lowercase hexadecimal, exactly 64 characters, no prefix.

use vstd::prelude::*;
use vstd::slice::slice_subrange;

verus! {

/// A 32-byte cryptographic commitment to a state object, immutable once
/// produced. The unit of comparison between the guest's execution and the
/// reference values.
#[derive(Debug)]
pub struct Digest32 {
    bytes: Vec<u8>,
}

impl View for Digest32 {
    type V = Seq<u8>;

    closed spec fn view(&self) -> Seq<u8> {
        self.bytes@
    }
}

impl Digest32 {
    /// Every digest carries exactly 32 bytes.
    pub open spec fn wf(&self) -> bool {
        self@.len() == 32
    }

    pub fn new(bytes: Vec<u8>) -> (r: Digest32)
        requires
            bytes@.len() == 32,
        ensures
            r@ == bytes@,
            r.wf(),
    {
        Digest32 { bytes }
    }

    pub fn as_bytes(&self) -> (r: &Vec<u8>)
        ensures
            r@ == self@,
    {
        &self.bytes
    }

    /// Byte-for-byte equality of two commitment values.
    pub fn equals(&self, other: &Digest32) -> (r: bool)
        ensures
            r == (self@ == other@),
    {
        if self.bytes.len() != other.bytes.len() {
            assert(self@ != other@) by {
                assert(self@.len() != other@.len());
            }
            return false;
        }
        let n = self.bytes.len();
        for i in 0..n
            invariant
                n == self@.len(),
                n == other@.len(),
                forall|j: int| 0 <= j < i ==> self@[j] == other@[j],
        {
            if self.bytes[i] != other.bytes[i] {
                return false;
            }
        }
        assert(self@ =~= other@);
        true
    }
}

/// Whether a byte is an ASCII hexadecimal digit.
pub open spec fn is_hex_digit(c: u8) -> bool {
    (48 <= c <= 57) || (97 <= c <= 102) || (65 <= c <= 70)
}

/// The numeric value of an ASCII hexadecimal digit.
pub open spec fn hex_digit_value(c: u8) -> u8
    recommends
        is_hex_digit(c),
{
    if 48 <= c <= 57 {
        (c - 48) as u8
    } else if 97 <= c <= 102 {
        (c - 87) as u8
    } else {
        (c - 55) as u8
    }
}

/// The lowercase ASCII digit for a value below 16.
pub open spec fn hex_char_of(n: u8) -> u8
    recommends
        n < 16,
{
    if n < 10 {
        (n + 48) as u8
    } else {
        (n + 87) as u8
    }
}

/// The lowercase hexadecimal text of a byte sequence: two digits per byte,
/// high nibble first.
pub open spec fn spec_hex_of(s: Seq<u8>) -> Seq<u8>
    decreases s.len(),
{
    if s.len() == 0 {
        Seq::empty()
    } else {
        seq![hex_char_of(s[0] / 16), hex_char_of((s[0] % 16) as u8)] + spec_hex_of(
            s.drop_first(),
        )
    }
}

/// The bytes read back from hexadecimal text, two digits at a time.
pub open spec fn spec_hex_decode(s: Seq<u8>) -> Seq<u8>
    decreases s.len(),
{
    if s.len() < 2 {
        Seq::empty()
    } else {
        seq![((hex_digit_value(s[0]) * 16 + hex_digit_value(s[1])) as u8)] + spec_hex_decode(
            s.skip(2),
        )
    }
}

/// Hexadecimal text is two lowercase digits per byte.
pub proof fn lemma_hex_of_shape(s: Seq<u8>)
    ensures
        spec_hex_of(s).len() == 2 * s.len(),
        forall|i: int|
            0 <= i < spec_hex_of(s).len() ==> is_hex_digit(#[trigger] spec_hex_of(s)[i]),
    decreases s.len(),
{
    if s.len() > 0 {
        lemma_hex_of_shape(s.drop_first());
    }
}

/// Reading hexadecimal text back gives the bytes it was written from.
pub proof fn lemma_hex_round_trip(s: Seq<u8>)
    ensures
        spec_hex_decode(spec_hex_of(s)) == s,
    decreases s.len(),
{
    if s.len() == 0 {
        assert(spec_hex_decode(spec_hex_of(s)) =~= s);
    } else {
        lemma_hex_round_trip(s.drop_first());
        lemma_hex_of_shape(s.drop_first());
        let h = spec_hex_of(s);
        assert(h.skip(2) =~= spec_hex_of(s.drop_first()));
        assert(hex_digit_value(hex_char_of(s[0] / 16)) == s[0] / 16);
        assert(hex_digit_value(hex_char_of((s[0] % 16) as u8)) == s[0] % 16);
        assert(spec_hex_decode(h) =~= s);
    }
}

/// Whether a byte is ASCII whitespace, the characters stripped from the ends
/// of an output line before it is judged.
pub open spec fn is_ws(c: u8) -> bool {
    c == 32 || c == 9 || c == 10 || c == 13 || c == 12
}

/// A line with its leading whitespace dropped.
pub open spec fn trim_front(s: Seq<u8>) -> Seq<u8>
    decreases s.len(),
{
    if s.len() > 0 && is_ws(s[0]) {
        trim_front(s.drop_first())
    } else {
        s
    }
}

/// A line with its trailing whitespace dropped.
pub open spec fn trim_back(s: Seq<u8>) -> Seq<u8>
    decreases s.len(),
{
    if s.len() > 0 && is_ws(s.last()) {
        trim_back(s.drop_last())
    } else {
        s
    }
}

/// A line with whitespace dropped from both ends.
pub open spec fn spec_trim(s: Seq<u8>) -> Seq<u8> {
    trim_back(trim_front(s))
}

/// Whether a line of guest output carries a digest: trimmed, it is exactly 64
/// hexadecimal characters.
pub open spec fn is_digest_line(l: Seq<u8>) -> bool {
    spec_trim(l).len() == 64 && (forall|i: int|
        0 <= i < 64 ==> is_hex_digit(#[trigger] spec_trim(l)[i]))
}

/// The predicate over lines that the output scan filters with.
pub open spec fn digest_line_pred() -> spec_fn(Seq<u8>) -> bool {
    |l: Seq<u8>| is_digest_line(l)
}

/// A byte stream split at every newline. The result always holds at least
/// one line; a trailing newline yields a final empty line.
pub open spec fn spec_lines(s: Seq<u8>) -> Seq<Seq<u8>>
    decreases s.len(),
{
    if s.len() == 0 {
        seq![Seq::<u8>::empty()]
    } else if s[0] == 10 {
        seq![Seq::<u8>::empty()] + spec_lines(s.drop_first())
    } else {
        let rest = spec_lines(s.drop_first());
        seq![seq![s[0]] + rest[0]] + rest.drop_first()
    }
}

pub proof fn lemma_lines_nonempty(s: Seq<u8>)
    ensures
        spec_lines(s).len() >= 1,
    decreases s.len(),
{
    if s.len() > 0 {
        lemma_lines_nonempty(s.drop_first());
    }
}

/// The lines of the output that carry a digest, in order.
pub open spec fn digest_lines(s: Seq<u8>) -> Seq<Seq<u8>> {
    spec_lines(s).filter(digest_line_pred())
}

/// What the output scan yields: the digest bytes of the unique digest line,
/// or nothing when zero or several lines qualify.
pub open spec fn spec_parse_state_root(s: Seq<u8>) -> Option<Seq<u8>> {
    if digest_lines(s).len() == 1 {
        Option::Some(spec_hex_decode(spec_trim(digest_lines(s)[0])))
    } else {
        Option::None
    }
}

/// The lowercase hexadecimal text of a digest: 64 characters, the form the
/// guest writes as its sole output line.
pub fn to_hex(d: &Digest32) -> (r: Vec<u8>)
    ensures
        r@ == spec_hex_of(d@),
        r@.len() == 2 * d@.len(),
{
    let bytes = d.as_bytes();
    let n = bytes.len();
    let mut r: Vec<u8> = Vec::new();
    assert(bytes@.skip(0) =~= bytes@);
    for i in 0..n
        invariant
            n == bytes@.len(),
            bytes@ == d@,
            spec_hex_of(d@) =~= r@ + spec_hex_of(bytes@.skip(i as int)),
            r@.len() == 2 * i,
    {
        let b = bytes[i];
        let hi = b / 16;
        let lo = b % 16;
        r.push(if hi < 10 { hi + 48 } else { hi + 87 });
        r.push(if lo < 10 { lo + 48 } else { lo + 87 });
        assert(bytes@.skip(i as int).drop_first() =~= bytes@.skip(i + 1));
    }
    proof {
        lemma_hex_of_shape(d@);
        assert(bytes@.skip(n as int) =~= Seq::empty());
    }
    r
}

/// A byte stream without newlines is a single line.
pub proof fn lemma_lines_single(s: Seq<u8>)
    requires
        forall|i: int| 0 <= i < s.len() ==> s[i] != 10,
    ensures
        spec_lines(s) == seq![s],
    decreases s.len(),
{
    if s.len() == 0 {
        assert(s =~= Seq::<u8>::empty());
        assert(spec_lines(s) =~= seq![s]);
    } else {
        lemma_lines_single(s.drop_first());
        let rest = spec_lines(s.drop_first());
        assert(rest == seq![s.drop_first()]);
        assert(rest[0] == s.drop_first());
        assert(rest.drop_first() =~= Seq::<Seq<u8>>::empty());
        assert(seq![s[0]] + s.drop_first() =~= s);
        assert(spec_lines(s) == seq![seq![s[0]] + rest[0]] + rest.drop_first());
        assert(spec_lines(s) =~= seq![s]);
    }
}

/// Splitting at a newline splits the lines: text before it and text after it
/// contribute their own lines, independently.
pub proof fn lemma_lines_split(a: Seq<u8>, b: Seq<u8>)
    ensures
        spec_lines(a + seq![10u8] + b) == spec_lines(a) + spec_lines(b),
    decreases a.len(),
{
    let s = a + seq![10u8] + b;
    if a.len() == 0 {
        assert(s[0] == 10);
        assert(s.drop_first() =~= b);
        assert(spec_lines(a) =~= seq![Seq::<u8>::empty()]);
        assert(spec_lines(s) =~= spec_lines(a) + spec_lines(b));
    } else if a[0] == 10 {
        assert(s[0] == 10);
        assert(s.drop_first() =~= a.drop_first() + seq![10u8] + b);
        lemma_lines_split(a.drop_first(), b);
        assert(spec_lines(s) =~= spec_lines(a) + spec_lines(b));
    } else {
        assert(s[0] == a[0] && s[0] != 10);
        assert(s.drop_first() =~= a.drop_first() + seq![10u8] + b);
        lemma_lines_split(a.drop_first(), b);
        let rest = spec_lines(s.drop_first());
        lemma_lines_nonempty(a.drop_first());
        assert(rest[0] == spec_lines(a.drop_first())[0]);
        assert(rest.drop_first() =~= spec_lines(a.drop_first()).drop_first() + spec_lines(b));
        assert(spec_lines(a) =~= seq![seq![a[0]] + spec_lines(a.drop_first())[0]] + spec_lines(
            a.drop_first(),
        ).drop_first());
        assert(spec_lines(s) =~= spec_lines(a) + spec_lines(b));
    }
}

/// Text with no whitespace at either end trims to itself.
pub proof fn lemma_trim_id(s: Seq<u8>)
    requires
        forall|i: int| 0 <= i < s.len() ==> !is_ws(s[i]),
    ensures
        spec_trim(s) == s,
{
}

/// The hexadecimal text of a digest is itself a digest line, and decodes back
/// to the digest.
pub proof fn lemma_hex_line_qualifies(d: Seq<u8>)
    requires
        d.len() == 32,
    ensures
        is_digest_line(spec_hex_of(d)),
        spec_trim(spec_hex_of(d)) == spec_hex_of(d),
        spec_hex_decode(spec_trim(spec_hex_of(d))) == d,
{
    lemma_hex_of_shape(d);
    let h = spec_hex_of(d);
    assert forall|i: int| 0 <= i < h.len() implies !is_ws(h[i]) by {
        assert(is_hex_digit(h[i]));
    }
    lemma_trim_id(h);
    lemma_hex_round_trip(d);
}

/// Robust extraction: arbitrary non-digest text on the surrounding lines does
/// not disturb the scan. An output made of noise lines, the digest's own
/// hexadecimal line, and more noise lines yields exactly that digest.
pub proof fn lemma_digest_extraction_robust(noise_before: Seq<u8>, d: Seq<u8>, noise_after: Seq<u8>)
    requires
        d.len() == 32,
        digest_lines(noise_before).len() == 0,
        digest_lines(noise_after).len() == 0,
    ensures
        spec_parse_state_root(noise_before + seq![10u8] + spec_hex_of(d) + seq![10u8] + noise_after)
            == Option::Some(d),
{
    reveal(Seq::filter);
    let pred = digest_line_pred();
    let h = spec_hex_of(d);
    lemma_hex_line_qualifies(d);
    lemma_hex_of_shape(d);
    let tail = h + seq![10u8] + noise_after;
    let full = noise_before + seq![10u8] + h + seq![10u8] + noise_after;
    assert(full =~= noise_before + seq![10u8] + tail);
    lemma_lines_split(noise_before, tail);
    lemma_lines_split(h, noise_after);
    assert forall|i: int| 0 <= i < h.len() implies h[i] != 10 by {
        assert(is_hex_digit(h[i]));
    }
    lemma_lines_single(h);
    assert(spec_lines(full) =~= spec_lines(noise_before) + (seq![h] + spec_lines(noise_after)));
    Seq::<Seq<u8>>::filter_distributes_over_add(
        spec_lines(noise_before),
        seq![h] + spec_lines(noise_after),
        pred,
    );
    Seq::<Seq<u8>>::filter_distributes_over_add(seq![h], spec_lines(noise_after), pred);
    assert(seq![h].drop_last() =~= Seq::<Seq<u8>>::empty());
    assert(seq![h].filter(pred) =~= seq![h]);
    assert(digest_lines(full) =~= seq![h]);
}

/// Why no digest could be read from the guest's output.
#[derive(Clone, Copy, PartialEq, Eq, Structural, Debug)]
pub enum DigestParseError {
    /// No line of the output is a 64-character hexadecimal digest.
    NoDigestLine,
    /// Several lines qualify, so the result is ambiguous.
    MultipleDigestLines,
}

fn is_ws_byte(c: u8) -> (r: bool)
    ensures
        r == is_ws(c),
{
    c == 32 || c == 9 || c == 10 || c == 13 || c == 12
}

fn is_hex_digit_byte(c: u8) -> (r: bool)
    ensures
        r == is_hex_digit(c),
{
    (48 <= c && c <= 57) || (97 <= c && c <= 102) || (65 <= c && c <= 70)
}

fn hex_val(c: u8) -> (r: u8)
    requires
        is_hex_digit(c),
    ensures
        r == hex_digit_value(c),
        r < 16,
{
    if 48 <= c && c <= 57 {
        c - 48
    } else if 97 <= c && c <= 102 {
        c - 87
    } else {
        c - 55
    }
}

/// Dropping a fully-whitespace prefix does not change the front trim.
proof fn lemma_trim_front_skip(s: Seq<u8>, k: int)
    requires
        0 <= k <= s.len(),
        forall|j: int| 0 <= j < k ==> is_ws(s[j]),
    ensures
        trim_front(s) == trim_front(s.skip(k)),
    decreases k,
{
    if k > 0 {
        assert(s.drop_first() =~= s.skip(1));
        lemma_trim_front_skip(s.skip(1), k - 1);
        assert(s.skip(1).skip(k - 1) =~= s.skip(k));
    } else {
        assert(s.skip(0) =~= s);
    }
}

/// Dropping a fully-whitespace suffix does not change the back trim.
proof fn lemma_trim_back_take(s: Seq<u8>, k: int)
    requires
        0 <= k <= s.len(),
        forall|j: int| k <= j < s.len() ==> is_ws(s[j]),
    ensures
        trim_back(s) == trim_back(s.take(k)),
    decreases s.len() - k,
{
    if k < s.len() {
        assert(is_ws(s.last()));
        assert(s.drop_last() =~= s.take(s.len() - 1));
        lemma_trim_back_take(s.take(s.len() - 1), k);
        assert(s.take(s.len() - 1).take(k) =~= s.take(k));
    } else {
        assert(s.take(k) =~= s);
    }
}

/// Judges one line of output: the decoded digest bytes when the line is a
/// digest line, nothing otherwise.
fn line_candidate(line: &[u8]) -> (r: Option<Vec<u8>>)
    ensures
        match r {
            Option::Some(v) => is_digest_line(line@) && v@ == spec_hex_decode(spec_trim(line@))
                && v@.len() == 32,
            Option::None => !is_digest_line(line@),
        },
{
    let n = line.len();
    let mut a: usize = 0;
    while a < n && is_ws_byte(line[a])
        invariant
            a <= n,
            n == line@.len(),
            forall|j: int| 0 <= j < a ==> is_ws(line@[j]),
        decreases n - a,
    {
        a += 1;
    }
    proof {
        lemma_trim_front_skip(line@, a as int);
        if a < n {
            assert(!is_ws(line@.skip(a as int)[0]));
        }
        assert(trim_front(line@.skip(a as int)) == line@.skip(a as int));
    }
    let mut b: usize = n;
    while b > a && is_ws_byte(line[b - 1])
        invariant
            a <= b <= n,
            n == line@.len(),
            forall|j: int| b <= j < n ==> is_ws(line@[j]),
        decreases b,
    {
        b -= 1;
    }
    proof {
        let t = line@.skip(a as int);
        lemma_trim_back_take(t, b - a);
        if b > a {
            assert(t.take(b - a).last() == line@[b - 1]);
            assert(!is_ws(t.take(b - a).last()));
        }
        assert(trim_back(t.take(b - a)) == t.take(b - a));
        assert(t.take(b - a) =~= line@.subrange(a as int, b as int));
        assert(spec_trim(line@) == line@.subrange(a as int, b as int));
    }
    if b - a != 64 {
        return Option::None;
    }
    let mut k: usize = a;
    while k < b
        invariant
            a <= k <= b <= n,
            n == line@.len(),
            b - a == 64,
            spec_trim(line@) == line@.subrange(a as int, b as int),
            forall|j: int| a <= j < k ==> is_hex_digit(line@[j]),
        decreases b - k,
    {
        if !is_hex_digit_byte(line[k]) {
            proof {
                assert(spec_trim(line@)[k - a] == line@[k as int]);
            }
            return Option::None;
        }
        k += 1;
    }
    proof {
        assert forall|i: int| 0 <= i < 64 implies is_hex_digit(#[trigger] spec_trim(line@)[i]) by {
            assert(spec_trim(line@)[i] == line@[a + i]);
        }
    }
    let ghost trimmed = spec_trim(line@);
    let mut v: Vec<u8> = Vec::new();
    let mut k: usize = 0;
    proof {
        assert(trimmed.skip(0) =~= trimmed);
    }
    while k < 32
        invariant
            k <= 32,
            n == line@.len(),
            a + 64 == b,
            b <= n,
            trimmed == spec_trim(line@),
            trimmed == line@.subrange(a as int, b as int),
            forall|j: int| a <= j < b ==> is_hex_digit(line@[j]),
            v@.len() == k,
            spec_hex_decode(trimmed) =~= v@ + spec_hex_decode(trimmed.skip(2 * k)),
        decreases 32 - k,
    {
        let c1 = line[a + 2 * k];
        let c2 = line[a + 2 * k + 1];
        proof {
            assert(trimmed.skip(2 * k as int)[0] == trimmed[2 * k as int] == line@[a + 2 * k]);
            assert(trimmed.skip(2 * k as int)[1] == trimmed[2 * k + 1] == line@[a + 2 * k + 1]);
        }
        let h1 = hex_val(c1);
        let h2 = hex_val(c2);
        v.push(h1 * 16 + h2);
        proof {
            assert(trimmed.skip(2 * k as int).skip(2) =~= trimmed.skip(2 * (k + 1)));
        }
        k += 1;
    }
    proof {
        assert(trimmed.skip(64) =~= Seq::empty());
        assert(spec_hex_decode(trimmed) =~= v@);
    }
    Option::Some(v)
}

/// One step of the line filter: pushing a line keeps the digest lines and
/// appends the new line exactly when it qualifies.
proof fn lemma_filter_push(s: Seq<Seq<u8>>, l: Seq<u8>)
    ensures
        is_digest_line(l) ==> s.push(l).filter(digest_line_pred()) == s.filter(
            digest_line_pred(),
        ).push(l),
        !is_digest_line(l) ==> s.push(l).filter(digest_line_pred()) == s.filter(
            digest_line_pred(),
        ),
{
    reveal(Seq::filter);
    let pred = digest_line_pred();
    assert(pred(l) == is_digest_line(l));
    assert(s.push(l).drop_last() =~= s);
    assert(s.push(l).last() == l);
    assert(s.push(l).len() == s.len() + 1);
    if is_digest_line(l) {
        assert(s.push(l).filter(pred) =~= s.filter(pred).push(l));
    } else {
        assert(s.push(l).filter(pred) =~= s.filter(pred));
    }
}

/// Scans the guest's output for its digest: the unique line that, trimmed,
/// is exactly 64 hexadecimal characters. Zero or several such lines fail the
/// scan; any other text on other lines is ignored.
pub fn parse_state_root_from_hex(out: &[u8]) -> (r: Result<Digest32, DigestParseError>)
    ensures
        r is Ok <==> digest_lines(out@).len() == 1,
        r is Ok ==> r->Ok_0@ == spec_hex_decode(spec_trim(digest_lines(out@)[0])) && r->Ok_0.wf(),
        r is Err ==> (r->Err_0 is NoDigestLine <==> digest_lines(out@).len() == 0) && (
        r->Err_0 is MultipleDigestLines <==> digest_lines(out@).len() >= 2),
{
    let n = out.len();
    let mut i: usize = 0;
    let mut start: usize = 0;
    let mut found: Option<Digest32> = Option::None;
    let ghost mut done: Seq<Seq<u8>> = Seq::empty();
    proof {
        assert(out@.skip(0) =~= out@);
        lemma_lines_nonempty(out@);
        assert(spec_lines(out@) =~= done + seq![out@.subrange(0, 0) + spec_lines(out@.skip(0))[0]]
            + spec_lines(out@.skip(0)).drop_first());
    }
    while i < n
        invariant
            start <= i <= n,
            n == out@.len(),
            spec_lines(out@) =~= done + seq![out@.subrange(start as int, i as int) + spec_lines(
                out@.skip(i as int),
            )[0]] + spec_lines(out@.skip(i as int)).drop_first(),
            spec_lines(out@.skip(i as int)).len() >= 1,
            match found {
                Option::Some(d) => done.filter(digest_line_pred()).len() == 1 && d@
                    == spec_hex_decode(spec_trim(done.filter(digest_line_pred())[0])) && d.wf(),
                Option::None => done.filter(digest_line_pred()).len() == 0,
            },
        decreases n - i,
    {
        if out[i] == 10 {
            let ghost cur = out@.subrange(start as int, i as int);
            let cand = line_candidate(slice_subrange(out, start, i));
            proof {
                // the completed line moves into `done`; the tail decomposition
                // restarts after the newline
                let tail = out@.skip(i as int);
                let tail2 = out@.skip(i + 1);
                assert(tail[0] == out@[i as int]);
                assert(tail.drop_first() =~= tail2);
                lemma_lines_nonempty(tail2);
                assert(spec_lines(tail) =~= seq![Seq::<u8>::empty()] + spec_lines(tail2));
                assert(spec_lines(tail)[0] =~= Seq::<u8>::empty());
                assert(cur + spec_lines(tail)[0] =~= cur);
                assert(spec_lines(tail).drop_first() =~= spec_lines(tail2));
                assert(spec_lines(tail2) =~= seq![out@.subrange(i + 1, i + 1) + spec_lines(tail2)[0]]
                    + spec_lines(tail2).drop_first());
                assert(spec_lines(out@) =~= done.push(cur) + seq![out@.subrange(i + 1, i + 1)
                    + spec_lines(tail2)[0]] + spec_lines(tail2).drop_first());
                lemma_filter_push(done, cur);
                done = done.push(cur);
            }
            start = i + 1;
            if let Option::Some(v) = cand {
                if found.is_some() {
                    proof {
                        let rest = seq![out@.subrange(start as int, start as int) + spec_lines(
                            out@.skip(start as int),
                        )[0]] + spec_lines(out@.skip(start as int)).drop_first();
                        Seq::<Seq<u8>>::filter_distributes_over_add(
                            done,
                            rest,
                            digest_line_pred(),
                        );
                        assert(digest_lines(out@).len() >= done.filter(
                            digest_line_pred(),
                        ).len());
                    }
                    return Result::Err(DigestParseError::MultipleDigestLines);
                }
                found = Option::Some(Digest32::new(v));
            }
        } else {
            proof {
                let tail = out@.skip(i as int);
                let tail2 = out@.skip(i + 1);
                assert(tail[0] == out@[i as int]);
                assert(tail.drop_first() =~= tail2);
                lemma_lines_nonempty(tail2);
                assert(spec_lines(tail) =~= seq![seq![out@[i as int]] + spec_lines(tail2)[0]]
                    + spec_lines(tail2).drop_first());
                assert(spec_lines(tail)[0] =~= seq![out@[i as int]] + spec_lines(tail2)[0]);
                assert(spec_lines(tail).drop_first() =~= spec_lines(tail2).drop_first());
                assert(out@.subrange(start as int, i + 1) =~= out@.subrange(start as int, i as int)
                    + seq![out@[i as int]]);
                assert(out@.subrange(start as int, i + 1) + spec_lines(tail2)[0] =~= out@.subrange(
                    start as int,
                    i as int,
                ) + spec_lines(tail)[0]);
                assert(spec_lines(out@) =~= done + seq![out@.subrange(start as int, i + 1)
                    + spec_lines(tail2)[0]] + spec_lines(tail2).drop_first());
            }
        }
        i += 1;
    }
    let ghost cur = out@.subrange(start as int, n as int);
    let cand = line_candidate(slice_subrange(out, start, n));
    proof {
        assert(out@.skip(n as int) =~= Seq::empty());
        assert(spec_lines(out@.skip(n as int)) =~= seq![Seq::<u8>::empty()]);
        assert(cur + spec_lines(out@.skip(n as int))[0] =~= cur);
        assert(spec_lines(out@.skip(n as int)).drop_first() =~= Seq::empty());
        assert(spec_lines(out@) =~= done.push(cur));
        lemma_filter_push(done, cur);
    }
    match (found, cand) {
        (Option::Some(_), Option::Some(_)) => Result::Err(DigestParseError::MultipleDigestLines),
        (Option::Some(d), Option::None) => Result::Ok(d),
        (Option::None, Option::Some(v)) => Result::Ok(Digest32::new(v)),
        (Option::None, Option::None) => Result::Err(DigestParseError::NoDigestLine),
    }
}

} // verus!
