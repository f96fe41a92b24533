//! The mirror resolver: candidate URL construction from an ordered list of
//! mirror bases, destination-path normalization, size discovery from probe
//! answers, a probe cache keyed by URL, and the batch total-size summary.

use vstd::prelude::*;
use crate::text::{chars_to_string, str_to_chars};

verus! {

/// A backslash becomes a forward slash; every other character stays.
pub open spec fn norm_char(c: char) -> char {
    if c == '\\' {
        '/'
    } else {
        c
    }
}

/// A destination path with its separators normalized to forward slashes.
pub open spec fn normalize_spec(s: Seq<char>) -> Seq<char> {
    s.map(|i: int, c: char| norm_char(c))
}

/// Normalizes a manifest destination path: backslashes become forward
/// slashes, nothing else changes.
pub fn normalize_dest(dest: &str) -> (r: String)
    ensures
        r@ == normalize_spec(dest@),
{
    let chars = str_to_chars(dest);
    let mut out: Vec<char> = Vec::new();
    let mut i: usize = 0;
    while i < chars.len()
        invariant
            i <= chars@.len(),
            chars@ == dest@,
            out@ == normalize_spec(dest@.subrange(0, i as int)),
        decreases chars@.len() - i,
    {
        let c = chars[i];
        if c == '\\' {
            out.push('/');
        } else {
            out.push(c);
        }
        assert(out@ =~= normalize_spec(dest@.subrange(0, i + 1)));
        i = i + 1;
    }
    assert(normalize_spec(dest@.subrange(0, dest@.len() as int)) =~= normalize_spec(dest@));
    chars_to_string(&out)
}

/// The transfer URL for one mirror: the base immediately followed by the
/// normalized destination (bases carry their trailing separator).
pub fn mirror_url(base: &String, dest: &String) -> (r: String)
    ensures
        r@ == base@ + dest@,
{
    base.clone().concat(dest.as_str())
}

/// The metadata-probe URL for one mirror: base, a separator, destination.
pub fn probe_url(base: &String, dest: &String) -> (r: String)
    ensures
        r@ == base@ + "/"@ + dest@,
{
    base.clone().concat("/").concat(dest.as_str())
}

/// The suffix after the last `/`: empty for a string ending in `/`, the
/// whole string when no `/` occurs.
pub open spec fn tail_component(s: Seq<char>) -> Seq<char>
    decreases s.len(),
{
    if s.len() == 0 {
        s
    } else if s[s.len() - 1] == '/' {
        Seq::empty()
    } else {
        tail_component(s.drop_last()).push(s[s.len() - 1])
    }
}

/// The final component of a path, as `Path::file_name` sees it: trailing
/// separators are ignored, a trailing `.` component is dropped in favour
/// of what precedes it, and there is no final component at all for an
/// empty path, a bare root, or a path ending in `..`.
pub open spec fn file_name_opt(s: Seq<char>) -> Option<Seq<char>>
    decreases s.len(),
{
    if s.len() == 0 {
        Option::None
    } else if s[s.len() - 1] == '/' {
        file_name_opt(s.drop_last())
    } else {
        let c = tail_component(s);
        if c == seq!['.'] {
            file_name_opt(s.drop_last())
        } else if c == seq!['.', '.'] {
            Option::None
        } else {
            Option::Some(c)
        }
    }
}

/// The file's display name: the final path component, or the whole path
/// when there is none (an empty path, a root, a path ending in `..`).
pub open spec fn filename_spec(s: Seq<char>) -> Seq<char> {
    match file_name_opt(s) {
        Option::Some(c) => c,
        Option::None => s,
    }
}

proof fn lemma_tail_component_range(s: Seq<char>, a: int, end: int)
    requires
        0 <= a < end <= s.len(),
        forall|j: int| a <= j < end ==> s[j] != '/',
        a == 0 || s[a - 1] == '/',
    ensures
        tail_component(s.take(end)) == s.subrange(a, end),
    decreases end - a,
{
    let t = s.take(end);
    assert(t[end - 1] == s[end - 1]);
    assert(t.drop_last() =~= s.take(end - 1));
    if a == end - 1 {
        if a == 0 {
            assert(tail_component(s.take(0)) =~= Seq::<char>::empty());
        } else {
            assert(s.take(a)[a - 1] == '/');
            assert(tail_component(s.take(a)) =~= Seq::<char>::empty());
        }
        assert(tail_component(t) =~= s.subrange(a, end));
    } else {
        lemma_tail_component_range(s, a, end - 1);
        assert(tail_component(t) =~= s.subrange(a, end));
    }
}

fn file_name_end(chars: &Vec<char>, end: usize) -> (r: Option<(usize, usize)>)
    requires
        end <= chars@.len(),
    ensures
        match r {
            Option::Some(p) => p.0 < p.1 <= end && file_name_opt(chars@.take(end as int))
                == Option::Some(chars@.subrange(p.0 as int, p.1 as int)),
            Option::None => file_name_opt(chars@.take(end as int)) is None,
        },
    decreases end,
{
    if end == 0 {
        return Option::None;
    }
    if chars[end - 1] == '/' {
        proof {
            assert(chars@.take(end as int).drop_last() =~= chars@.take(end - 1));
        }
        return file_name_end(chars, end - 1);
    }
    let mut a: usize = end - 1;
    while a > 0 && chars[a - 1] != '/'
        invariant
            a < end <= chars@.len(),
            forall|j: int| a <= j < end ==> chars@[j] != '/',
        decreases a,
    {
        a = a - 1;
    }
    proof {
        lemma_tail_component_range(chars@, a as int, end as int);
    }
    if end - a == 1 && chars[a] == '.' {
        proof {
            assert(chars@.subrange(a as int, end as int) =~= seq!['.']);
            assert(chars@.take(end as int).drop_last() =~= chars@.take(end - 1));
        }
        file_name_end(chars, end - 1)
    } else if end - a == 2 && chars[a] == '.' && chars[a + 1] == '.' {
        proof {
            assert(chars@.subrange(a as int, end as int) =~= seq!['.', '.']);
        }
        Option::None
    } else {
        proof {
            let c = chars@.subrange(a as int, end as int);
            assert(c.len() == end - a);
            assert(c[0] == chars@[a as int]);
            if end - a == 2 {
                assert(c[1] == chars@[a + 1]);
            }
            assert(c != seq!['.']);
            assert(c != seq!['.', '.']);
        }
        Option::Some((a, end))
    }
}

/// The file's display name, following `Path::file_name`: the final path
/// component with trailing separators and a trailing `.` component
/// ignored; the whole path when there is no final component (an empty
/// path, a root, or a path ending in `..`).
pub fn get_filename(path: &str) -> (r: String)
    ensures
        r@ == filename_spec(path@),
{
    let chars = str_to_chars(path);
    proof {
        assert(chars@.take(chars@.len() as int) =~= chars@);
    }
    match file_name_end(&chars, chars.len()) {
        Option::Some((a, b)) => {
            let mut out: Vec<char> = Vec::new();
            let mut j: usize = a;
            while j < b
                invariant
                    a <= j <= b <= chars@.len(),
                    chars@ == path@,
                    out@ == path@.subrange(a as int, j as int),
                decreases b - j,
            {
                out.push(chars[j]);
                assert(out@ =~= path@.subrange(a as int, j + 1));
                j = j + 1;
            }
            chars_to_string(&out)
        },
        Option::None => String::from_str(path),
    }
}

/// Doubled slashes collapsed to single ones, scanning left to right over
/// non-overlapping pairs.
pub open spec fn collapse_spec(s: Seq<char>) -> Seq<char>
    decreases s.len(),
{
    if s.len() >= 2 && s[0] == '/' && s[1] == '/' {
        seq!['/'] + collapse_spec(s.skip(2))
    } else if s.len() > 0 {
        seq![s[0]] + collapse_spec(s.skip(1))
    } else {
        Seq::empty()
    }
}

fn collapse_chars(chars: &Vec<char>) -> (r: Vec<char>)
    ensures
        r@ == collapse_spec(chars@),
{
    let n = chars.len();
    let mut out: Vec<char> = Vec::new();
    let mut i: usize = 0;
    proof {
        assert(chars@.skip(0) =~= chars@);
        assert(out@ + collapse_spec(chars@.skip(0)) =~= collapse_spec(chars@));
    }
    while i < n
        invariant
            i <= n,
            n == chars@.len(),
            out@ + collapse_spec(chars@.skip(i as int)) == collapse_spec(chars@),
        decreases n - i,
    {
        if i + 1 < n && chars[i] == '/' && chars[i + 1] == '/' {
            out.push('/');
            proof {
                assert(chars@.skip(i as int).skip(2) =~= chars@.skip(i + 2));
                assert(out@ + collapse_spec(chars@.skip(i + 2)) =~= collapse_spec(chars@));
            }
            i = i + 2;
        } else {
            out.push(chars[i]);
            proof {
                assert(chars@.skip(i as int).skip(1) =~= chars@.skip(i + 1));
                assert(out@ + collapse_spec(chars@.skip(i + 1)) =~= collapse_spec(chars@));
            }
            i = i + 1;
        }
    }
    proof {
        assert(chars@.skip(n as int) =~= Seq::<char>::empty());
        assert(out@ =~= collapse_spec(chars@));
    }
    out
}

/// Whether the scheme separator `://` occurs at position `i`.
pub open spec fn scheme_at(s: Seq<char>, i: int) -> bool {
    &&& 0 <= i
    &&& i + 3 <= s.len()
    &&& s[i] == ':'
    &&& s[i + 1] == '/'
    &&& s[i + 2] == '/'
}

/// A URL as written to the URL log: doubled slashes after the scheme
/// separator are collapsed; a URL without a scheme is collapsed whole.
pub fn sanitize_url(url: &str) -> (r: String)
    ensures
        (exists|i: int| scheme_at(url@, i)) ==> (exists|i: int|
            {
                &&& #[trigger] scheme_at(url@, i)
                &&& (forall|j: int| 0 <= j < i ==> !scheme_at(url@, j))
                &&& r@ == url@.take(i + 3) + collapse_spec(url@.skip(i + 3))
            }),
        !(exists|i: int| scheme_at(url@, i)) ==> r@ == collapse_spec(url@),
{
    let chars = str_to_chars(url);
    let n = chars.len();
    let mut i: usize = 0;
    while i < n && n - i >= 3
        invariant
            i <= n,
            n == chars@.len(),
            chars@ == url@,
            forall|j: int| 0 <= j < i ==> !scheme_at(url@, j),
        decreases n - i,
    {
        if chars[i] == ':' && chars[i + 1] == '/' && chars[i + 2] == '/' {
            let mut head: Vec<char> = Vec::new();
            let mut j: usize = 0;
            while j < i + 3
                invariant
                    j <= i + 3,
                    i + 3 <= n,
                    n == chars@.len(),
                    chars@ == url@,
                    head@ == url@.subrange(0, j as int),
                decreases i + 3 - j,
            {
                head.push(chars[j]);
                assert(head@ =~= url@.subrange(0, j + 1));
                j = j + 1;
            }
            let mut tail: Vec<char> = Vec::new();
            let mut m: usize = i + 3;
            while m < n
                invariant
                    i + 3 <= m <= n,
                    n == chars@.len(),
                    chars@ == url@,
                    tail@ == url@.subrange(i + 3, m as int),
                decreases n - m,
            {
                tail.push(chars[m]);
                assert(tail@ =~= url@.subrange(i + 3, m + 1));
                m = m + 1;
            }
            proof {
                assert(tail@ =~= url@.skip(i + 3));
                assert(head@ =~= url@.take(i + 3));
            }
            let collapsed = collapse_chars(&tail);
            let mut all = head;
            let mut p: usize = 0;
            while p < collapsed.len()
                invariant
                    p <= collapsed@.len(),
                    all@ == url@.take(i + 3) + collapsed@.subrange(0, p as int),
                    collapsed@ == collapse_spec(url@.skip(i + 3)),
                decreases collapsed@.len() - p,
            {
                all.push(collapsed[p]);
                assert(all@ =~= url@.take(i + 3) + collapsed@.subrange(0, p + 1));
                p = p + 1;
            }
            proof {
                assert(collapsed@.subrange(0, collapsed@.len() as int) =~= collapsed@);
                assert(scheme_at(url@, i as int));
            }
            return chars_to_string(&all);
        }
        i = i + 1;
    }
    proof {
        assert(forall|j: int| 0 <= j ==> j < i ==> !scheme_at(url@, j));
        assert forall|j: int| !scheme_at(url@, j) by {
            if 0 <= j && j + 3 <= url@.len() {
                assert(j < i);
            }
        }
    }
    let collapsed = collapse_chars(&chars);
    chars_to_string(&collapsed)
}

/// The first size any mirror reported, in probe order.
pub open spec fn first_size_spec(probes: Seq<Option<u64>>) -> Option<u64>
    decreases probes.len(),
{
    if probes.len() == 0 {
        Option::None
    } else {
        match probes[0] {
            Option::Some(s) => Option::Some(s),
            Option::None => first_size_spec(probes.skip(1)),
        }
    }
}

/// Size discovery across mirrors: the first probe answer that carried a
/// content length wins; no answer at all leaves the size unknown.
pub fn probe_size(probes: &Vec<Option<u64>>) -> (r: Option<u64>)
    ensures
        r == first_size_spec(probes@),
{
    let mut i: usize = 0;
    proof {
        assert(probes@.skip(0) =~= probes@);
    }
    while i < probes.len()
        invariant
            i <= probes@.len(),
            first_size_spec(probes@) == first_size_spec(probes@.skip(i as int)),
        decreases probes@.len() - i,
    {
        proof {
            assert(probes@.skip(i as int).skip(1) =~= probes@.skip(i + 1));
        }
        match probes[i] {
            Option::Some(s) => {
                return Option::Some(s);
            },
            Option::None => {
                i = i + 1;
            },
        }
    }
    proof {
        assert(probes@.skip(probes@.len() as int) =~= Seq::<Option<u64>>::empty());
    }
    Option::None
}

/// First-match lookup in an association list of URL/size pairs.
pub open spec fn cache_lookup(entries: Seq<(String, u64)>, key: Seq<char>) -> Option<u64>
    decreases entries.len(),
{
    if entries.len() == 0 {
        Option::None
    } else if entries[0].0@ == key {
        Option::Some(entries[0].1)
    } else {
        cache_lookup(entries.skip(1), key)
    }
}

/// A URL-to-size cache for one batch size-estimation pass, so the same URL
/// is never probed twice.
pub struct SizeCache {
    /// The remembered probe answers, in insertion order.
    pub entries: Vec<(String, u64)>,
}

impl SizeCache {
    /// An empty cache.
    pub fn new() -> (c: SizeCache)
        ensures
            c.entries@.len() == 0,
    {
        SizeCache { entries: Vec::new() }
    }

    /// The remembered size for `url`, if this pass probed it already.
    pub fn get(&self, url: &String) -> (r: Option<u64>)
        ensures
            r == cache_lookup(self.entries@, url@),
    {
        let mut i: usize = 0;
        proof {
            assert(self.entries@.skip(0) =~= self.entries@);
        }
        while i < self.entries.len()
            invariant
                i <= self.entries@.len(),
                cache_lookup(self.entries@, url@) == cache_lookup(
                    self.entries@.skip(i as int),
                    url@,
                ),
            decreases self.entries@.len() - i,
        {
            proof {
                assert(self.entries@.skip(i as int).skip(1) =~= self.entries@.skip(i + 1));
            }
            if self.entries[i].0 == *url {
                return Option::Some(self.entries[i].1);
            }
            i = i + 1;
        }
        proof {
            assert(self.entries@.skip(self.entries@.len() as int) =~= Seq::<(String, u64)>::empty());
        }
        Option::None
    }

    /// Remembers a probe answer.
    pub fn insert(&mut self, url: String, size: u64)
        ensures
            final(self).entries@ == old(self).entries@.push((url, size)),
    {
        self.entries.push((url, size));
    }
}

/// Sum of the sizes that were discovered.
pub open spec fn total_size_spec(sizes: Seq<Option<u64>>) -> nat
    decreases sizes.len(),
{
    if sizes.len() == 0 {
        0
    } else {
        (match sizes[0] {
            Option::Some(s) => s as nat,
            Option::None => 0,
        }) + total_size_spec(sizes.skip(1))
    }
}

/// How many files no mirror reported a size for.
pub open spec fn unknown_count_spec(sizes: Seq<Option<u64>>) -> nat
    decreases sizes.len(),
{
    if sizes.len() == 0 {
        0
    } else {
        (match sizes[0] {
            Option::Some(_) => 0nat,
            Option::None => 1nat,
        }) + unknown_count_spec(sizes.skip(1))
    }
}

proof fn lemma_total_snoc(sizes: Seq<Option<u64>>, x: Option<u64>)
    ensures
        total_size_spec(sizes.push(x)) == total_size_spec(sizes) + (match x {
            Option::Some(s) => s as nat,
            Option::None => 0nat,
        }),
        unknown_count_spec(sizes.push(x)) == unknown_count_spec(sizes) + (match x {
            Option::Some(_) => 0nat,
            Option::None => 1nat,
        }),
    decreases sizes.len(),
{
    let p = sizes.push(x);
    if sizes.len() == 0 {
        assert(p[0] == x);
        assert(p.skip(1) =~= Seq::<Option<u64>>::empty());
        assert(total_size_spec(p.skip(1)) == 0);
        assert(unknown_count_spec(p.skip(1)) == 0);
        assert(total_size_spec(sizes) == 0);
        assert(unknown_count_spec(sizes) == 0);
    } else {
        lemma_total_snoc(sizes.skip(1), x);
        assert(p[0] == sizes[0]);
        assert(p.skip(1) =~= sizes.skip(1).push(x));
        assert(total_size_spec(p) == (match p[0] {
            Option::Some(s) => s as nat,
            Option::None => 0nat,
        }) + total_size_spec(sizes.skip(1).push(x)));
        assert(unknown_count_spec(p) == (match p[0] {
            Option::Some(_) => 0nat,
            Option::None => 1nat,
        }) + unknown_count_spec(sizes.skip(1).push(x)));
    }
}

/// The batch's size summary: the expected total and the number of files
/// whose size stayed unknown.
pub struct ProbeTotals {
    /// Sum of the discovered sizes, saturating at the counter maximum.
    pub total_bytes: u64,
    /// Files with no discovered size.
    pub unknown_files: u64,
}

/// Sums the discovered per-file sizes of the batch-size estimation pass
/// and counts the files whose size could not be learned.
pub fn calculate_total_size(sizes: &Vec<Option<u64>>) -> (r: ProbeTotals)
    requires
        sizes@.len() <= u64::MAX,
    ensures
        r.total_bytes == (if total_size_spec(sizes@) <= u64::MAX {
            total_size_spec(sizes@) as u64
        } else {
            u64::MAX
        }),
        r.unknown_files == unknown_count_spec(sizes@),
{
    let mut total: u64 = 0;
    let mut unknown: u64 = 0;
    let mut i: usize = 0;
    while i < sizes.len()
        invariant
            i <= sizes@.len(),
            sizes@.len() <= u64::MAX,
            total == (if total_size_spec(sizes@.subrange(0, i as int)) <= u64::MAX {
                total_size_spec(sizes@.subrange(0, i as int)) as u64
            } else {
                u64::MAX
            }),
            unknown == unknown_count_spec(sizes@.subrange(0, i as int)),
            unknown <= i,
        decreases sizes@.len() - i,
    {
        proof {
            lemma_total_snoc(sizes@.subrange(0, i as int), sizes@[i as int]);
            assert(sizes@.subrange(0, i as int).push(sizes@[i as int]) =~= sizes@.subrange(
                0,
                i + 1,
            ));
        }
        match sizes[i] {
            Option::Some(s) => {
                if s <= u64::MAX - total {
                    total = total + s;
                } else {
                    total = u64::MAX;
                }
            },
            Option::None => {
                unknown = unknown + 1;
            },
        }
        i = i + 1;
    }
    proof {
        assert(sizes@.subrange(0, sizes@.len() as int) =~= sizes@);
    }
    ProbeTotals { total_bytes: total, unknown_files: unknown }
}

} // verus!
