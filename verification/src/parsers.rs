//! Decoders for the structured data carried inside reply message text: the
//! passive-mode address tuple and the FEAT capability listing.

use vstd::prelude::*;

use crate::code::is_digit_byte;
use crate::commands::{append_range, split_on, LF, SP};
use crate::error::Error;

verus! {

/// ASCII opening parenthesis.
pub const OPEN_PAREN: u8 = 40;

/// ASCII closing parenthesis.
pub const CLOSE_PAREN: u8 = 41;

/// ASCII comma.
pub const COMMA: u8 = 44;

/// Index of the first occurrence of `d` in `s` at or after `i`, or
/// `s.len()` if there is none.
pub open spec fn find_byte(s: Seq<u8>, d: u8, i: int) -> int
    decreases s.len() - i when 0 <= i <= s.len()
{
    if i >= s.len() {
        i
    } else if s[i] == d {
        i
    } else {
        find_byte(s, d, i + 1)
    }
}

proof fn lemma_find_byte_at(s: Seq<u8>, d: u8, from: int, at: int)
    requires
        0 <= from <= at <= s.len(),
        forall|j: int| from <= j < at ==> s[j] != d,
        at < s.len() ==> s[at] == d,
    ensures
        find_byte(s, d, from) == at,
    decreases at - from,
{
    if from < at {
        lemma_find_byte_at(s, d, from + 1, at);
    }
}

/// How many ASCII digits stand at `i`, reading at most three.
pub open spec fn digit_run(s: Seq<u8>, i: int) -> int {
    if i < s.len() && is_digit_byte(s[i]) {
        if i + 1 < s.len() && is_digit_byte(s[i + 1]) {
            if i + 2 < s.len() && is_digit_byte(s[i + 2]) {
                3
            } else {
                2
            }
        } else {
            1
        }
    } else {
        0
    }
}

/// The decimal value of the digit run at `i`.
pub open spec fn run_value(s: Seq<u8>, i: int) -> int {
    let n = digit_run(s, i);
    if n == 3 {
        (s[i] - 48) * 100 + (s[i + 1] - 48) * 10 + (s[i + 2] - 48)
    } else if n == 2 {
        (s[i] - 48) * 10 + (s[i + 1] - 48)
    } else {
        s[i] - 48
    }
}

/// One numeric component at `i` closed by the separator `d`: its value and
/// the index just past the separator, or `None` if there is no digit at
/// `i`, the value is beyond 255, or the separator does not follow.
pub open spec fn component(s: Seq<u8>, i: int, d: u8) -> Option<(int, int)> {
    let n = digit_run(s, i);
    if n == 0 {
        None
    } else {
        let v = run_value(s, i);
        if v <= 255 && i + n < s.len() && s[i + n] == d {
            Some((v, i + n + 1))
        } else {
            None
        }
    }
}

/// The passive-mode address encoded in `s`, if any: after the first `(`,
/// six comma-separated decimal numbers each in 0..=255, closed by `)`. The
/// first four are the host quartet; the port is `p1 * 256 + p2`.
pub open spec fn spec_passive_mode(s: Seq<u8>) -> Option<(Seq<u8>, u16)> {
    let p = find_byte(s, OPEN_PAREN, 0);
    if p >= s.len() {
        None
    } else {
        match component(s, p + 1, COMMA) {
            None => None,
            Some(c1) => match component(s, c1.1, COMMA) {
                None => None,
                Some(c2) => match component(s, c2.1, COMMA) {
                    None => None,
                    Some(c3) => match component(s, c3.1, COMMA) {
                        None => None,
                        Some(c4) => match component(s, c4.1, COMMA) {
                            None => None,
                            Some(c5) => match component(s, c5.1, CLOSE_PAREN) {
                                None => None,
                                Some(c6) => Some(
                                    (
                                        seq![
                                            c1.0 as u8,
                                            c2.0 as u8,
                                            c3.0 as u8,
                                            c4.0 as u8,
                                        ],
                                        (c5.0 * 256 + c6.0) as u16,
                                    ),
                                ),
                            },
                        },
                    },
                },
            },
        }
    }
}

/// Whether `b` is ASCII whitespace: space, tab, line feed, form feed or
/// carriage return.
pub open spec fn is_space_byte(b: u8) -> bool {
    b == 32 || b == 9 || b == 10 || b == 12 || b == 13
}

/// `s` without its leading whitespace.
pub open spec fn trim_start(s: Seq<u8>) -> Seq<u8>
    decreases s.len(),
{
    if s.len() > 0 && is_space_byte(s.first()) {
        trim_start(s.drop_first())
    } else {
        s
    }
}

/// `s` without its trailing whitespace.
pub open spec fn trim_end(s: Seq<u8>) -> Seq<u8>
    decreases s.len(),
{
    if s.len() > 0 && is_space_byte(s.last()) {
        trim_end(s.drop_last())
    } else {
        s
    }
}

/// `s` without leading and trailing whitespace.
pub open spec fn trim(s: Seq<u8>) -> Seq<u8> {
    trim_end(trim_start(s))
}

proof fn lemma_trim_start_at(s: Seq<u8>, j: int)
    requires
        0 <= j <= s.len(),
        forall|i: int| 0 <= i < j ==> is_space_byte(s[i]),
        j < s.len() ==> !is_space_byte(s[j]),
    ensures
        trim_start(s) =~= s.skip(j),
    decreases j,
{
    if j == 0 {
        assert(s.skip(0) =~= s);
    } else {
        assert(is_space_byte(s.first()));
        assert(forall|i: int| 0 <= i < j - 1 ==> s.drop_first()[i] == s[i + 1]);
        lemma_trim_start_at(s.drop_first(), j - 1);
        assert(s.drop_first().skip(j - 1) =~= s.skip(j));
    }
}

proof fn lemma_trim_end_at(s: Seq<u8>, k: int)
    requires
        0 <= k <= s.len(),
        forall|i: int| k <= i < s.len() ==> is_space_byte(s[i]),
        k > 0 ==> !is_space_byte(s[k - 1]),
    ensures
        trim_end(s) =~= s.take(k),
    decreases s.len() - k,
{
    if k == s.len() {
        assert(s.take(k) =~= s);
    } else {
        assert(is_space_byte(s.last()));
        assert(forall|i: int| k <= i < s.drop_last().len() ==> s.drop_last()[i] == s[i]);
        lemma_trim_end_at(s.drop_last(), k);
        assert(s.drop_last().take(k) =~= s.take(k));
    }
}

/// The capability a feature line advertises, if it is one: a line beginning
/// with a single space, whose text up to the next space is the (trimmed)
/// name and whose remainder, if any, is the (trimmed) detail.
pub open spec fn feature_of_line(line: Seq<u8>) -> Option<(Seq<u8>, Option<Seq<u8>>)> {
    if line.len() >= 1 && line[0] == SP {
        let rest = line.skip(1);
        let k = find_byte(rest, SP, 0);
        if k >= rest.len() {
            Some((trim(rest), None))
        } else {
            Some((trim(rest.take(k)), Some(trim(rest.skip(k + 1)))))
        }
    } else {
        None
    }
}

/// The capability mapping the given lines advertise, in order: lines that
/// are not feature lines contribute nothing, and a repeated name keeps the
/// later detail.
pub open spec fn features_map(lines: Seq<Seq<u8>>) -> Map<Seq<u8>, Option<Seq<u8>>>
    decreases lines.len(),
{
    if lines.len() == 0 {
        Map::empty()
    } else {
        let m = features_map(lines.drop_last());
        match feature_of_line(lines.last()) {
            None => m,
            Some(f) => m.insert(f.0, f.1),
        }
    }
}

/// The capabilities the given lines advertise, as a list in line order,
/// with repeated names kept.
pub open spec fn features_list(lines: Seq<Seq<u8>>) -> Seq<(Seq<u8>, Option<Seq<u8>>)>
    decreases lines.len(),
{
    if lines.len() == 0 {
        Seq::empty()
    } else {
        let l = features_list(lines.drop_last());
        match feature_of_line(lines.last()) {
            None => l,
            Some(f) => l.push(f),
        }
    }
}

/// The capability mapping of a whole FEAT message body: its lines split on
/// line feeds, read as feature lines.
pub open spec fn spec_features(s: Seq<u8>) -> Map<Seq<u8>, Option<Seq<u8>>> {
    features_map(split_on(s, LF))
}

/// The capability list of a whole FEAT message body, in line order.
pub open spec fn spec_feature_list(s: Seq<u8>) -> Seq<(Seq<u8>, Option<Seq<u8>>)> {
    features_list(split_on(s, LF))
}

/// The mathematical pair an entry stands for.
pub open spec fn entry_view(e: (Vec<u8>, Option<Vec<u8>>)) -> (Seq<u8>, Option<Seq<u8>>) {
    (
        e.0@,
        match e.1 {
            None => None,
            Some(v) => Some(v@),
        },
    )
}

/// The mapping a list of entries builds up, later entries overwriting
/// earlier ones of the same name.
pub open spec fn entries_map(l: Seq<(Seq<u8>, Option<Seq<u8>>)>) -> Map<Seq<u8>, Option<Seq<u8>>>
    decreases l.len(),
{
    if l.len() == 0 {
        Map::empty()
    } else {
        entries_map(l.drop_last()).insert(l.last().0, l.last().1)
    }
}

/// The capability set decoded out of a FEAT reply body: each advertised
/// name with its optional detail. Viewed as the name-to-detail mapping
/// where a repeated name keeps the later detail.
pub struct Features {
    entries: Vec<(Vec<u8>, Option<Vec<u8>>)>,
}

impl View for Features {
    type V = Map<Seq<u8>, Option<Seq<u8>>>;

    open spec fn view(&self) -> Map<Seq<u8>, Option<Seq<u8>>> {
        entries_map(self.spec_entries())
    }
}

impl Features {
    /// The decoded entries, in the order their lines stood in the body.
    pub closed spec fn spec_entries(&self) -> Seq<(Seq<u8>, Option<Seq<u8>>)> {
        self.entries@.map_values(|e| entry_view(e))
    }

    /// An empty capability set.
    pub fn new() -> (f: Features)
        ensures
            f.spec_entries() =~= Seq::<(Seq<u8>, Option<Seq<u8>>)>::empty(),
    {
        Features { entries: Vec::new() }
    }

    /// How many entries were decoded.
    pub fn len(&self) -> (n: usize)
        ensures
            n == self.spec_entries().len(),
    {
        self.entries.len()
    }

    /// The entry at position `i`: its name and optional detail.
    pub fn entry_at(&self, i: usize) -> (e: &(Vec<u8>, Option<Vec<u8>>))
        requires
            i < self.spec_entries().len(),
        ensures
            entry_view(*e) == self.spec_entries()[i as int],
    {
        vstd::std_specs::vec::vec_index(&self.entries, i)
    }

    fn push_entry(&mut self, name: Vec<u8>, detail: Option<Vec<u8>>)
        ensures
            final(self).spec_entries() =~= old(self).spec_entries().push(
                entry_view((name, detail)),
            ),
    {
        let ghost pre = self.entries@;
        self.entries.push((name, detail));
        proof {
            assert(self.entries@.map_values(|e| entry_view(e)) =~= pre.map_values(
                |e| entry_view(e),
            ).push(entry_view((name, detail))));
        }
    }

    /// The detail recorded for `name`, doubly optional: `None` when the
    /// name is absent, `Some(None)` when it was advertised without detail.
    /// A repeated name yields the later detail.
    pub fn get<'a>(&'a self, name: &[u8]) -> (r: Option<&'a Option<Vec<u8>>>)
        ensures
            self@.contains_key(name@) ==> (r matches Some(d) && self@[name@] == match (*d) {
                None => None::<Seq<u8>>,
                Some(v) => Some(v@),
            }),
            !self@.contains_key(name@) ==> r is None,
    {
        let ghost l = self.spec_entries();
        let mut k = self.entries.len();
        proof {
            assert(l.len() == self.entries@.len());
            assert(l.take(k as int) =~= l);
        }
        while k > 0
            invariant
                k <= self.entries.len(),
                l == self.spec_entries(),
                entries_map(l).contains_key(name@) == entries_map(l.take(k as int)).contains_key(
                    name@,
                ),
                entries_map(l).contains_key(name@) ==> entries_map(l)[name@] == entries_map(
                    l.take(k as int),
                )[name@],
            decreases k,
        {
            k = k - 1;
            let e = vstd::std_specs::vec::vec_index(&self.entries, k);
            if bytes_eq(e.0.as_slice(), name) {
                proof {
                    assert(l.take(k as int + 1).drop_last() =~= l.take(k as int));
                    assert(l.take(k as int + 1).last() == l[k as int]);
                }
                return Some(&e.1);
            }
            proof {
                assert(l.take(k as int + 1).drop_last() =~= l.take(k as int));
                assert(l.take(k as int + 1).last() == l[k as int]);
            }
        }
        proof {
            assert(l.take(0) =~= Seq::<(Seq<u8>, Option<Seq<u8>>)>::empty());
        }
        None
    }

    /// Whether `name` was advertised at all.
    pub fn contains(&self, name: &[u8]) -> (r: bool)
        ensures
            r == self@.contains_key(name@),
    {
        self.get(name).is_some()
    }
}

/// Whether two byte strings hold the same bytes.
fn bytes_eq(a: &[u8], b: &[u8]) -> (r: bool)
    ensures
        r == (a@ == b@),
{
    if a.len() != b.len() {
        proof {
            assert(a@.len() != b@.len());
            assert(a@ == b@ ==> a@.len() == b@.len());
        }
        return false;
    }
    let n = a.len();
    let mut i: usize = 0;
    while i < n
        invariant
            i <= n,
            n == a@.len() == b@.len(),
            forall|j: int| 0 <= j < i ==> a@[j] == b@[j],
        decreases n - i,
    {
        if *vstd::slice::slice_index_get(a, i) != *vstd::slice::slice_index_get(b, i) {
            proof {
                assert(a@ == b@ ==> a@[i as int] == b@[i as int]);
            }
            return false;
        }
        i += 1;
    }
    proof {
        assert(a@ =~= b@);
    }
    true
}

/// Index of the first occurrence of `d` in `input` at or after `from`, or
/// the length if there is none.
fn find_byte_from(input: &[u8], d: u8, from: usize) -> (r: usize)
    requires
        from <= input@.len(),
    ensures
        from <= r <= input@.len(),
        r == find_byte(input@, d, from as int),
        forall|j: int| from <= j < r ==> input@[j] != d,
        r < input@.len() ==> input@[r as int] == d,
{
    let len = input.len();
    let mut i = from;
    while i < len && *vstd::slice::slice_index_get(input, i) != d
        invariant
            from <= i <= len == input@.len(),
            forall|j: int| from <= j < i ==> input@[j] != d,
        decreases len - i,
    {
        i += 1;
    }
    proof {
        lemma_find_byte_at(input@, d, from as int, i as int);
    }
    i
}

/// Index of the first occurrence of `d` in `input[from..to]`, or `to` if
/// there is none.
fn find_byte_range(input: &[u8], d: u8, from: usize, to: usize) -> (r: usize)
    requires
        from <= to <= input@.len(),
    ensures
        from <= r <= to,
        forall|t: int| from <= t < r ==> input@[t] != d,
        r < to ==> input@[r as int] == d,
{
    let mut i = from;
    while i < to && *vstd::slice::slice_index_get(input, i) != d
        invariant
            from <= i <= to <= input@.len(),
            forall|t: int| from <= t < i ==> input@[t] != d,
        decreases to - i,
    {
        i += 1;
    }
    i
}

/// Whether `b` is ASCII whitespace, mirroring [`is_space_byte`].
fn is_space(b: u8) -> (r: bool)
    ensures
        r == is_space_byte(b),
{
    b == 32 || b == 9 || b == 10 || b == 12 || b == 13
}

/// The bounds of `input[from..to]` with surrounding whitespace dropped.
fn trim_range(input: &[u8], from: usize, to: usize) -> (r: (usize, usize))
    requires
        from <= to <= input@.len(),
    ensures
        from <= r.0 <= r.1 <= to,
        input@.subrange(r.0 as int, r.1 as int) =~= trim(
            input@.subrange(from as int, to as int),
        ),
{
    let mut a = from;
    while a < to && is_space(*vstd::slice::slice_index_get(input, a))
        invariant
            from <= a <= to <= input@.len(),
            forall|t: int| from <= t < a ==> is_space_byte(input@[t]),
        decreases to - a,
    {
        a += 1;
    }
    let mut b = to;
    while b > a && is_space(*vstd::slice::slice_index_get(input, b - 1))
        invariant
            a <= b <= to <= input@.len(),
            forall|t: int| b <= t < to ==> is_space_byte(input@[t]),
        decreases b,
    {
        b -= 1;
    }
    proof {
        let s = input@.subrange(from as int, to as int);
        lemma_trim_start_at(s, a - from);
        assert(s.skip(a - from) =~= input@.subrange(a as int, to as int));
        lemma_trim_end_at(input@.subrange(a as int, to as int), b - a);
        assert(input@.subrange(a as int, to as int).take(b - a) =~= input@.subrange(
            a as int,
            b as int,
        ));
    }
    (a, b)
}

/// A fresh vector holding `input[from..to]`.
fn vec_of_range(input: &[u8], from: usize, to: usize) -> (r: Vec<u8>)
    requires
        from <= to <= input@.len(),
    ensures
        r@ =~= input@.subrange(from as int, to as int),
{
    let mut v: Vec<u8> = Vec::new();
    append_range(&mut v, input, from, to);
    v
}

proof fn lemma_features_map_list(lines: Seq<Seq<u8>>)
    ensures
        features_map(lines) == entries_map(features_list(lines)),
    decreases lines.len(),
{
    if lines.len() > 0 {
        lemma_features_map_list(lines.drop_last());
        match feature_of_line(lines.last()) {
            None => {},
            Some(f) => {
                let l = features_list(lines.drop_last());
                assert(l.push(f).drop_last() =~= l);
                assert(l.push(f).last() == f);
            },
        }
    }
}

/// Decodes the capability set out of a FEAT reply body: splits it on line
/// feeds, keeps the lines beginning with a space, and reads each as a
/// `NAME` or `NAME DETAIL` entry, exactly as [`spec_feature_list`] and
/// [`spec_features`] describe.
pub fn parse_features(buf: &[u8]) -> (r: Features)
    ensures
        r.spec_entries() =~= spec_feature_list(buf@),
        r@ == spec_features(buf@),
{
    let ghost lines = split_on(buf@, LF);
    let mut res = Features::new();
    let len = buf.len();
    let mut i: usize = 0;
    let ghost mut k: int = 0;
    let mut done = false;
    proof {
        assert(buf@.skip(0) =~= buf@);
        assert(lines.skip(0) =~~= lines);
        assert(lines.take(0) =~= Seq::<Seq<u8>>::empty());
    }
    while !done
        invariant
            i <= len == buf@.len(),
            0 <= k <= lines.len(),
            lines == split_on(buf@, LF),
            res.spec_entries() =~= features_list(lines.take(k)),
            !done ==> split_on(buf@.skip(i as int), LF) =~~= lines.skip(k),
            done ==> k == lines.len(),
        decreases (if done { 0int } else { len - i + 1 }),
    {
        let j = find_byte_from(buf, LF, i);
        let ghost line = buf@.subrange(i as int, j as int);
        proof {
            assert(!line.contains(LF)) by {
                assert(forall|t: int|
                    0 <= t < line.len() ==> line[t] == buf@[i + t] && buf@[i + t] != LF);
            }
            if j < len {
                assert(buf@.skip(i as int) =~= line + seq![LF] + buf@.skip(j + 1));
                crate::commands::lemma_split_on_concat(line, buf@.skip(j + 1), LF);
                assert(seq![line] + split_on(buf@.skip(j + 1), LF) =~~= lines.skip(k));
                assert(lines.skip(k)[0] == line);
                assert(lines[k] == line);
                assert(split_on(buf@.skip(j + 1), LF) =~~= lines.skip(k + 1)) by {
                    assert(forall|t: int|
                        0 <= t < split_on(buf@.skip(j + 1), LF).len() ==> #[trigger] lines.skip(
                            k + 1,
                        )[t] == lines.skip(k)[t + 1]);
                }
            } else {
                assert(buf@.skip(i as int) =~= line);
                crate::commands::lemma_split_on_free(line, LF);
                assert(lines.skip(k) =~~= seq![line]);
                assert(lines.skip(k).len() == 1);
                assert(lines[k] == lines.skip(k)[0]);
                assert(lines[k] == line);
            }
        }
        if j > i && *vstd::slice::slice_index_get(buf, i) == SP {
            let ghost rest = line.skip(1);
            proof {
                assert(rest =~= buf@.subrange(i + 1, j as int));
            }
            let m = find_byte_range(buf, SP, i + 1, j);
            proof {
                assert(forall|t: int|
                    0 <= t < m - (i + 1) ==> rest[t] == buf@[i + 1 + t] && buf@[i + 1 + t] != SP);
                lemma_find_byte_at(rest, SP, 0, m - (i + 1));
            }
            if m < j {
                let name_bounds = trim_range(buf, i + 1, m);
                let detail_bounds = trim_range(buf, m + 1, j);
                let name = vec_of_range(buf, name_bounds.0, name_bounds.1);
                let detail = vec_of_range(buf, detail_bounds.0, detail_bounds.1);
                proof {
                    assert(rest.take(m - (i + 1)) =~= buf@.subrange(i + 1, m as int));
                    assert(rest.skip(m - (i + 1) + 1) =~= buf@.subrange(m + 1, j as int));
                    assert(feature_of_line(line) == Some((name@, Some(detail@))));
                }
                res.push_entry(name, Some(detail));
            } else {
                let name_bounds = trim_range(buf, i + 1, j);
                let name = vec_of_range(buf, name_bounds.0, name_bounds.1);
                proof {
                    assert(feature_of_line(line) == Some((name@, None::<Seq<u8>>)));
                }
                res.push_entry(name, None);
            }
        } else {
            proof {
                assert(feature_of_line(line) is None);
            }
        }
        proof {
            assert(lines.take(k + 1).drop_last() =~= lines.take(k));
            assert(lines.take(k + 1).last() == lines[k]);
            k = k + 1;
        }
        if j == len {
            done = true;
            proof {
                assert(lines.skip(k - 1).len() == 1);
                assert(k == lines.len());
            }
        } else {
            i = j + 1;
        }
    }
    proof {
        assert(lines.take(lines.len() as int) =~= lines);
        lemma_features_map_list(lines);
    }
    res
}

/// The numeric component at `i` closed by `d`, mirroring [`component`].
fn parse_component(input: &[u8], i: usize, d: u8) -> (r: Option<(u8, usize)>)
    ensures
        component(input@, i as int, d) matches Some(c) ==> (r matches Some(q) && q.0 == c.0 && q.1
            == c.1),
        component(input@, i as int, d) is None ==> r is None,
{
    let len = input.len();
    if i >= len {
        return None;
    }
    let b0 = *vstd::slice::slice_index_get(input, i);
    if !(48 <= b0 && b0 <= 57) {
        return None;
    }
    let mut n: usize = 1;
    let mut v: u16 = (b0 - 48) as u16;
    if i + 1 < len {
        let b1 = *vstd::slice::slice_index_get(input, i + 1);
        if 48 <= b1 && b1 <= 57 {
            n = 2;
            v = v * 10 + (b1 - 48) as u16;
            if i + 2 < len {
                let b2 = *vstd::slice::slice_index_get(input, i + 2);
                if 48 <= b2 && b2 <= 57 {
                    n = 3;
                    v = v * 10 + (b2 - 48) as u16;
                }
            }
        }
    }
    if v <= 255 && i + n < len && *vstd::slice::slice_index_get(input, i + n) == d {
        Some((v as u8, i + n + 1))
    } else {
        None
    }
}

/// Decodes the passive-mode `(h1,h2,h3,h4,p1,p2)` tuple out of `input`,
/// exactly as [`spec_passive_mode`] reads it; every malformed input fails
/// with `InvalidPassiveModeReply`.
pub fn parse_passive_mode(input: &[u8]) -> (r: Result<([u8; 4], u16), Error>)
    ensures
        spec_passive_mode(input@) matches Some(a) ==> (r matches Ok(addr) && addr.0@ == a.0
            && addr.1 == a.1),
        spec_passive_mode(input@) is None ==> r == Err::<([u8; 4], u16), Error>(
            Error::InvalidPassiveModeReply,
        ),
{
    let p = find_byte_from(input, OPEN_PAREN, 0);
    if p >= input.len() {
        return Err(Error::InvalidPassiveModeReply);
    }
    let c1 = match parse_component(input, p + 1, COMMA) {
        Some(c) => c,
        None => { return Err(Error::InvalidPassiveModeReply) },
    };
    let c2 = match parse_component(input, c1.1, COMMA) {
        Some(c) => c,
        None => { return Err(Error::InvalidPassiveModeReply) },
    };
    let c3 = match parse_component(input, c2.1, COMMA) {
        Some(c) => c,
        None => { return Err(Error::InvalidPassiveModeReply) },
    };
    let c4 = match parse_component(input, c3.1, COMMA) {
        Some(c) => c,
        None => { return Err(Error::InvalidPassiveModeReply) },
    };
    let c5 = match parse_component(input, c4.1, COMMA) {
        Some(c) => c,
        None => { return Err(Error::InvalidPassiveModeReply) },
    };
    let c6 = match parse_component(input, c5.1, CLOSE_PAREN) {
        Some(c) => c,
        None => { return Err(Error::InvalidPassiveModeReply) },
    };
    let host: [u8; 4] = [c1.0, c2.0, c3.0, c4.0];
    let port: u16 = (c5.0 as u16) * 256 + (c6.0 as u16);
    proof {
        assert(host@ =~= spec_passive_mode(input@).unwrap().0);
    }
    Ok((host, port))
}

} // verus!
