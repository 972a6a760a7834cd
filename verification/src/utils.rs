//! The table from product types ("iPhone14,2") to marketing names
//! ("iPhone 13 Pro"), read from a text with one `key : value` pair per line.
use vstd::prelude::*;
use vstd::hash_map::StringHashMap;
use crate::text::{trim, trim_bounds, chars_of, string_of};

verus! {

/// The lines of `s`: the pieces between the newline characters, the last
/// one included (it may be empty).
pub open spec fn segments(s: Seq<char>) -> Seq<Seq<char>>
    decreases s.len(),
{
    if s.len() == 0 {
        seq![Seq::<char>::empty()]
    } else {
        let r = segments(s.drop_last());
        if s.last() == '\n' {
            r.push(Seq::<char>::empty())
        } else {
            r.update(r.len() - 1, r.last().push(s.last()))
        }
    }
}

/// Whether the three characters `" : "` start at index `i` of `t`.
pub open spec fn is_separator_at(t: Seq<char>, i: int) -> bool {
    &&& 0 <= i
    &&& i + 3 <= t.len()
    &&& t[i] == ' '
    &&& t[i + 1] == ':'
    &&& t[i + 2] == ' '
}

/// Whether `i` is the first index of `t` at which `" : "` starts.
pub open spec fn is_first_separator(t: Seq<char>, i: int) -> bool {
    is_separator_at(t, i) && forall|j: int| 0 <= j < i ==> !is_separator_at(t, j)
}

/// The index at which `str::split_once(" : ")` splits `t`, if any.
pub open spec fn first_separator(t: Seq<char>) -> Option<int> {
    if exists|i: int| is_first_separator(t, i) {
        Some(choose|i: int| is_first_separator(t, i))
    } else {
        None
    }
}

/// The pair that one line of the table text contributes: the line is
/// trimmed, split at its first `" : "`, and both halves are trimmed.
pub open spec fn line_entry(line: Seq<char>) -> Option<(Seq<char>, Seq<char>)> {
    let t = trim(line);
    match first_separator(t) {
        Some(i) => Some((trim(t.take(i)), trim(t.skip(i + 3)))),
        None => None,
    }
}

/// The table that a sequence of lines describes, read in order, so that
/// a later line for a key replaces an earlier one.
pub open spec fn table_of_lines(lines: Seq<Seq<char>>) -> Map<Seq<char>, Seq<char>>
    decreases lines.len(),
{
    if lines.len() == 0 {
        Map::empty()
    } else {
        let m = table_of_lines(lines.drop_last());
        match line_entry(lines.last()) {
            Some((k, v)) => m.insert(k, v),
            None => m,
        }
    }
}

/// The table that a whole text describes.
pub open spec fn table_of_text(text: Seq<char>) -> Map<Seq<char>, Seq<char>> {
    table_of_lines(segments(text))
}

/// What `human_readable_model` answers for `product_type` with the table `t`.
pub open spec fn model_name(t: Map<Seq<char>, Seq<char>>, product_type: Seq<char>) -> Seq<char> {
    if t.contains_key(product_type) {
        t[product_type]
    } else {
        product_type
    }
}

pub proof fn lemma_segments_nonempty(s: Seq<char>)
    ensures
        segments(s).len() >= 1,
    decreases s.len(),
{
    if s.len() > 0 {
        lemma_segments_nonempty(s.drop_last());
    }
}

/// Product types and their marketing names.
pub struct ModelTable {
    map: StringHashMap<String>,
}

impl View for ModelTable {
    type V = Map<Seq<char>, Seq<char>>;

    closed spec fn view(&self) -> Map<Seq<char>, Seq<char>> {
        self.map@.map_values(|v: String| v@)
    }
}

impl ModelTable {
    /// The table without any entry.
    pub fn empty() -> (t: ModelTable)
        ensures
            t@ == Map::<Seq<char>, Seq<char>>::empty(),
    {
        let t = ModelTable { map: StringHashMap::new() };
        assert(t@ =~= Map::<Seq<char>, Seq<char>>::empty());
        t
    }

    fn insert(&mut self, k: String, v: String)
        ensures
            final(self)@ == old(self)@.insert(k@, v@),
    {
        self.map.insert(k, v);
        assert(self@ =~= old(self)@.insert(k@, v@));
    }

    /// The marketing name of `product_type`, if the table has one.
    pub fn get(&self, product_type: &str) -> (r: Option<String>)
        ensures
            r is Some <==> self@.contains_key(product_type@),
            r matches Some(name) ==> name@ == self@[product_type@],
    {
        match self.map.get(product_type) {
            Some(name) => Some(name.clone()),
            None => None,
        }
    }

    /// Adds the pair that the line `s[lo..hi]` holds, if it holds one.
    fn add_line(&mut self, s: &Vec<char>, lo: usize, hi: usize)
        requires
            lo <= hi <= s.len(),
        ensures
            final(self)@ == match line_entry(s@.subrange(lo as int, hi as int)) {
                Some((k, v)) => old(self)@.insert(k, v),
                None => old(self)@,
            },
    {
        let ghost line = s@.subrange(lo as int, hi as int);
        let (a, b) = trim_bounds(s, lo, hi);
        let ghost t = s@.subrange(a as int, b as int);
        assert(t == trim(line));
        if a == b {
            assert(!exists|i: int| is_first_separator(t, i));
            assert(line_entry(line) is None);
            return ;
        }
        let mut j = a;
        while b - j >= 3
            invariant
                lo <= a <= j <= b <= hi <= s.len(),
                t == s@.subrange(a as int, b as int),
                t == trim(line),
                line == s@.subrange(lo as int, hi as int),
                self@ == old(self)@,
                forall|k: int| 0 <= k < j - a ==> !is_separator_at(t, k),
            decreases b - j,
        {
            if s[j] == ' ' && s[j + 1] == ':' && s[j + 2] == ' ' {
                let ghost i = j - a;
                proof {
                    assert(is_separator_at(t, i));
                    assert(is_first_separator(t, i));
                    let c = choose|c: int| is_first_separator(t, c);
                    assert(c == i) by {
                        if c < i {
                            assert(!is_separator_at(t, c));
                        } else if c > i {
                            assert(!is_separator_at(t, i));
                        }
                    }
                    assert(t.take(i) =~= s@.subrange(a as int, j as int));
                    assert(t.skip(i + 3) =~= s@.subrange(j + 3, b as int));
                }
                let (ka, kb) = trim_bounds(s, a, j);
                let (va, vb) = trim_bounds(s, j + 3, b);
                let key = string_of(s, ka, kb);
                let value = string_of(s, va, vb);
                self.insert(key, value);
                assert(first_separator(t) == Some(i));
                assert(line_entry(line) == Some((trim(t.take(i)), trim(t.skip(i + 3)))));
                return ;
            }
            proof {
                assert(!is_separator_at(t, j - a));
            }
            j = j + 1;
        }
        proof {
            assert forall|i: int| !is_first_separator(t, i) by {
                if is_first_separator(t, i) {
                    assert(i < j - a);
                }
            }
            assert(first_separator(t) is None);
            assert(line_entry(line) is None);
        }
    }

    /// Reads the table from its text: each line is trimmed, blank lines and
    /// lines without `" : "` are skipped, and every other line maps the part
    /// before its first `" : "` to the part after it, both trimmed.
    pub fn parse(text: &str) -> (t: ModelTable)
        ensures
            t@ == table_of_text(text@),
    {
        let s = chars_of(text);
        let mut table = ModelTable::empty();
        let mut start: usize = 0;
        let mut i: usize = 0;
        proof {
            assert(s@.take(0) =~= Seq::<char>::empty());
            assert(s@.subrange(0, 0) =~= Seq::<char>::empty());
            assert(table_of_lines(segments(s@.take(0)).drop_last()) =~= Map::<
                Seq<char>,
                Seq<char>,
            >::empty());
        }
        while i < s.len()
            invariant
                0 <= start <= i <= s.len(),
                table@ == table_of_lines(segments(s@.take(i as int)).drop_last()),
                segments(s@.take(i as int)).last() == s@.subrange(start as int, i as int),
                segments(s@.take(i as int)).len() >= 1,
            decreases s.len() - i,
        {
            let ghost prev = segments(s@.take(i as int));
            let ghost next = segments(s@.take(i + 1));
            assert(s@.take(i + 1).drop_last() =~= s@.take(i as int));
            assert(s@.take(i + 1).last() == s@[i as int]);
            if s[i] == '\n' {
                table.add_line(&s, start, i);
                assert(next == prev.push(Seq::<char>::empty()));
                assert(next.drop_last() =~= prev);
                assert(prev =~= prev.drop_last().push(prev.last()));
                assert(s@.subrange(i + 1, i + 1) =~= Seq::<char>::empty());
                start = i + 1;
            } else {
                assert(next == prev.update(prev.len() - 1, prev.last().push(s@[i as int])));
                assert(next.drop_last() =~= prev.drop_last());
                assert(s@.subrange(start as int, i + 1) =~= s@.subrange(start as int, i as int).push(
                    s@[i as int],
                ));
            }
            i = i + 1;
        }
        table.add_line(&s, start, s.len());
        proof {
            let segs = segments(s@.take(s.len() as int));
            assert(s@.take(s.len() as int) =~= s@);
            assert(segs =~= segs.drop_last().push(segs.last()));
        }
        table
    }
}

/// The marketing name of `product_type` according to `table`, or
/// `product_type` itself where the table has no entry for it.
pub fn human_readable_model(table: &ModelTable, product_type: &str) -> (r: String)
    ensures
        r@ == model_name(table@, product_type@),
{
    match table.get(product_type) {
        Some(name) => name,
        None => String::from_str(product_type),
    }
}

} // verus!

verus! {

proof fn lemma_segments_concat(a: Seq<char>, b: Seq<char>)
    ensures
        segments(a + seq!['\n'] + b) == segments(a) + segments(b),
    decreases b.len(),
{
    let x = a + seq!['\n'] + b;
    if b.len() == 0 {
        assert(x.drop_last() =~= a);
        assert(segments(a).push(Seq::<char>::empty()) =~= segments(a) + segments(b));
    } else {
        lemma_segments_concat(a, b.drop_last());
        lemma_segments_nonempty(b.drop_last());
        lemma_segments_nonempty(a);
        assert(x.drop_last() =~= a + seq!['\n'] + b.drop_last());
        assert(x.last() == b.last());
        let r = segments(a) + segments(b.drop_last());
        let sb = segments(b.drop_last());
        if b.last() == '\n' {
            assert(r.push(Seq::<char>::empty()) =~= segments(a) + sb.push(Seq::<char>::empty()));
        } else {
            assert(r.last() == sb.last());
            assert(r.update(r.len() - 1, r.last().push(b.last())) =~= segments(a) + sb.update(
                sb.len() - 1,
                sb.last().push(b.last()),
            ));
        }
    }
}

proof fn lemma_table_of_lines_concat(x: Seq<Seq<char>>, y: Seq<Seq<char>>)
    ensures
        table_of_lines(x + y) == table_of_lines(x).union_prefer_right(table_of_lines(y)),
    decreases y.len(),
{
    if y.len() == 0 {
        assert(x + y =~= x);
        assert(table_of_lines(x).union_prefer_right(table_of_lines(y)) =~= table_of_lines(x));
    } else {
        lemma_table_of_lines_concat(x, y.drop_last());
        assert((x + y).drop_last() =~= x + y.drop_last());
        assert((x + y).last() == y.last());
        let a = table_of_lines(x);
        let b = table_of_lines(y.drop_last());
        match line_entry(y.last()) {
            Some((k, v)) => {
                assert(a.union_prefer_right(b).insert(k, v) =~= a.union_prefer_right(b.insert(k, v)));
            },
            None => {},
        }
    }
}

/// A table text made of two blocks, one after the other on separate
/// lines, reads as the second block laid over the first: a product type
/// that the second block lists takes its name from there, any other keeps
/// the name the first block gives it.
pub proof fn law_later_block_overrides(first: Seq<char>, second: Seq<char>)
    ensures
        table_of_text(first + seq!['\n'] + second) == table_of_text(first).union_prefer_right(
            table_of_text(second),
        ),
{
    lemma_segments_concat(first, second);
    lemma_table_of_lines_concat(segments(first), segments(second));
}

} // verus!

verus! {

proof fn lemma_trim_unchanged(s: Seq<char>)
    requires
        s.len() > 0,
        !crate::text::is_whitespace(s[0]),
        !crate::text::is_whitespace(s.last()),
    ensures
        trim(s) == s,
{
    assert(crate::text::trim_start(s) == s);
    assert(crate::text::trim_end(s) == s);
}

proof fn lemma_segments_single(s: Seq<char>)
    requires
        forall|i: int| 0 <= i < s.len() ==> s[i] != '\n',
    ensures
        segments(s) == seq![s],
    decreases s.len(),
{
    if s.len() == 0 {
        assert(s =~= Seq::<char>::empty());
    } else {
        lemma_segments_single(s.drop_last());
        assert(s.last() == s[s.len() - 1]);
        assert(s.drop_last().push(s.last()) =~= s);
        assert(seq![s.drop_last()].update(0, s.drop_last().push(s.last())) =~= seq![s]);
    }
}

/// A single line `key : value` yields exactly that pair, for a key and a
/// value that have no whitespace at their ends, no newline, and a key in
/// which `" : "` does not begin: the table reads back what a line writes.
pub proof fn law_line_reads_back(key: Seq<char>, value: Seq<char>)
    requires
        key.len() > 0,
        value.len() > 0,
        !crate::text::is_whitespace(key[0]),
        !crate::text::is_whitespace(key.last()),
        !crate::text::is_whitespace(value[0]),
        !crate::text::is_whitespace(value.last()),
        forall|i: int| 0 <= i < key.len() ==> key[i] != '\n',
        forall|i: int| 0 <= i < value.len() ==> value[i] != '\n',
        forall|i: int| 0 <= i < key.len() ==> !is_separator_at(key + seq![' ', ':', ' '] + value, i),
    ensures
        line_entry(key + seq![' ', ':', ' '] + value) == Some((key, value)),
        table_of_text(key + seq![' ', ':', ' '] + value) == map![key => value],
{
    let line = key + seq![' ', ':', ' '] + value;
    let n = key.len() as int;
    assert(line[0] == key[0]);
    assert(line.last() == value.last());
    lemma_trim_unchanged(line);
    lemma_trim_unchanged(key);
    lemma_trim_unchanged(value);
    assert(is_separator_at(line, n));
    assert(is_first_separator(line, n));
    let c = choose|c: int| is_first_separator(line, c);
    assert(c == n) by {
        if c < n {
            assert(!is_separator_at(line, c));
        } else if c > n {
            assert(!is_separator_at(line, n));
        }
    }
    assert(line.take(n) =~= key);
    assert(line.skip(n + 3) =~= value);
    assert forall|i: int| 0 <= i < line.len() implies line[i] != '\n' by {
        if i < n {
            assert(line[i] == key[i]);
        } else if i >= n + 3 {
            assert(line[i] == value[i - n - 3]);
        }
    }
    lemma_segments_single(line);
    assert(seq![line].drop_last() =~= Seq::<Seq<char>>::empty());
    assert(seq![line].last() == line);
    assert(table_of_lines(Seq::<Seq<char>>::empty()) == Map::<Seq<char>, Seq<char>>::empty());
    assert(Map::<Seq<char>, Seq<char>>::empty().insert(key, value) =~= map![key => value]);
}

} // verus!

verus! {

/// A line in which, once trimmed, `" : "` does not occur (a blank line, a
/// heading, a malformed pair) leaves the table as it was.
pub proof fn law_line_without_separator_is_ignored(text: Seq<char>, line: Seq<char>)
    requires
        forall|i: int| 0 <= i < line.len() ==> line[i] != '\n',
        forall|i: int| !is_separator_at(trim(line), i),
    ensures
        table_of_text(text + seq!['\n'] + line) == table_of_text(text),
{
    law_later_block_overrides(text, line);
    lemma_segments_single(line);
    assert(!exists|i: int| is_first_separator(trim(line), i));
    assert(line_entry(line) is None);
    assert(seq![line].drop_last() =~= Seq::<Seq<char>>::empty());
    assert(seq![line].last() == line);
    assert(table_of_lines(Seq::<Seq<char>>::empty()) == Map::<Seq<char>, Seq<char>>::empty());
    assert(table_of_lines(seq![line]) == table_of_lines(seq![line].drop_last()));
    assert(table_of_lines(seq![line]) == Map::<Seq<char>, Seq<char>>::empty());
    assert(table_of_text(text).union_prefer_right(Map::<Seq<char>, Seq<char>>::empty())
        =~= table_of_text(text));
}

} // verus!

verus! {

/// A product type that the table lists is named by its entry; any other is
/// shown as it is.
pub proof fn law_model_name(t: Map<Seq<char>, Seq<char>>, product_type: Seq<char>)
    ensures
        t.contains_key(product_type) ==> model_name(t, product_type) == t[product_type],
        !t.contains_key(product_type) ==> model_name(t, product_type) == product_type,
{
}

} // verus!
