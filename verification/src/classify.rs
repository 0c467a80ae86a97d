//! Classifies a file path by its extension: WAV audio, or an opaque blob.

use vstd::prelude::*;

verus! {

/// The classification of a file path: structured WAV audio, or anything else.
#[derive(Clone, Copy, Debug, PartialEq, Eq, Structural)]
pub enum ExtType {
    Wav,
    Others,
}

/// The suffix of `s` strictly after the last occurrence of `c`,
/// or all of `s` when `c` does not occur in it.
pub open spec fn suffix_after_last(s: Seq<char>, c: char) -> Seq<char>
    decreases s.len(),
{
    if s.len() == 0 {
        s
    } else if s.last() == c {
        Seq::empty()
    } else {
        suffix_after_last(s.drop_last(), c).push(s.last())
    }
}

pub open spec fn contains_char(s: Seq<char>, c: char) -> bool {
    exists|i: int| 0 <= i < s.len() && s[i] == c
}

/// The extension of a path: the part of the last path segment after the
/// segment's last `.`. A `.` that begins the segment does not count as a
/// separator (a leading dot marks a hidden file, not an empty stem), so
/// such a segment without a later `.` has no extension.
pub open spec fn extension_of(p: Seq<char>) -> Option<Seq<char>> {
    let name = suffix_after_last(p, '/');
    if name.len() >= 1 && contains_char(name.skip(1), '.') {
        Some(suffix_after_last(name, '.'))
    } else {
        None
    }
}

/// Whether an extension spells `wav` case-insensitively.
pub open spec fn is_wav_ext(e: Seq<char>) -> bool {
    &&& e.len() == 3
    &&& (e[0] == 'w' || e[0] == 'W')
    &&& (e[1] == 'a' || e[1] == 'A')
    &&& (e[2] == 'v' || e[2] == 'V')
}

/// A path with extension `wav` (in any case) is WAV audio; any other
/// extension, or none at all, is an opaque blob.
pub open spec fn spec_classify(p: Seq<char>) -> ExtType {
    match extension_of(p) {
        Some(e) => if is_wav_ext(e) {
            ExtType::Wav
        } else {
            ExtType::Others
        },
        None => ExtType::Others,
    }
}

/// When every character from `start` on differs from `c`, and the character
/// just before `start` (if any) is `c`, the suffix after the last `c` is
/// exactly the tail of `s` from `start`.
proof fn lemma_suffix_after_last_at(s: Seq<char>, c: char, start: int)
    requires
        0 <= start <= s.len(),
        forall|k: int| start <= k < s.len() ==> s[k] != c,
        start > 0 ==> s[start - 1] == c,
    ensures
        suffix_after_last(s, c) == s.subrange(start, s.len() as int),
    decreases s.len(),
{
    if s.len() == 0 {
        assert(s.subrange(0, 0) =~= s);
    } else if start == s.len() {
        assert(s.last() == c);
        assert(suffix_after_last(s, c) =~= s.subrange(start, s.len() as int));
    } else {
        assert(s.last() != c);
        lemma_suffix_after_last_at(s.drop_last(), c, start);
        assert(suffix_after_last(s, c) == suffix_after_last(s.drop_last(), c).push(s.last()));
        assert(s.drop_last().subrange(start, s.drop_last().len() as int)
            =~= s.subrange(start, s.len() - 1));
        assert(s.subrange(start, s.len() - 1).push(s.last())
            =~= s.subrange(start, s.len() as int));
    }
}

/// Classifies a path, matching `spec_classify` exactly.
pub fn classify(path: &str) -> (r: ExtType)
    ensures
        r == spec_classify(path@),
{
    let ghost p = path@;
    let n = path.unicode_len();

    // Find where the last path segment starts: just after the last '/'.
    let mut start: usize = 0;
    let mut i: usize = 0;
    while i < n
        invariant
            n == p.len(),
            p == path@,
            0 <= start <= i <= n,
            forall|k: int| start <= k < i ==> p[k] != '/',
            start > 0 ==> p[start - 1] == '/',
        decreases n - i,
    {
        if path.get_char(i) == '/' {
            start = i + 1;
        }
        i = i + 1;
    }
    proof {
        lemma_suffix_after_last_at(p, '/', start as int);
    }
    let ghost name = p.subrange(start as int, n as int);

    if start >= n {
        // The last segment is empty, so there is no extension.
        assert(name.len() == 0);
        return ExtType::Others;
    }

    // Find the last '.' of the segment, skipping the segment's first
    // character: a leading dot marks a hidden file, not an extension.
    let mut dot: usize = 0;
    let mut has_dot: bool = false;
    let mut j: usize = start + 1;
    while j < n
        invariant
            n == p.len(),
            p == path@,
            start + 1 <= j <= n,
            has_dot ==> start + 1 <= dot < j && p[dot as int] == '.',
            has_dot ==> forall|k: int| dot < k < j ==> p[k] != '.',
            !has_dot ==> forall|k: int| start + 1 <= k < j ==> p[k] != '.',
        decreases n - j,
    {
        if path.get_char(j) == '.' {
            dot = j;
            has_dot = true;
        }
        j = j + 1;
    }

    if !has_dot {
        proof {
            assert(name.skip(1) =~= p.subrange(start + 1, n as int));
            assert(!contains_char(name.skip(1), '.'));
        }
        return ExtType::Others;
    }

    proof {
        assert(name.skip(1) =~= p.subrange(start + 1, n as int));
        assert(name.skip(1)[dot - start - 1] == '.');
        assert(contains_char(name.skip(1), '.'));
        lemma_suffix_after_last_at(name, '.', dot - start + 1);
        assert(name.subrange(dot - start + 1, name.len() as int)
            =~= p.subrange(dot + 1, n as int));
        assert(extension_of(p) == Some(p.subrange(dot + 1, n as int)));
    }

    if n - dot - 1 != 3 {
        return ExtType::Others;
    }
    let c0 = path.get_char(dot + 1);
    let c1 = path.get_char(dot + 2);
    let c2 = path.get_char(dot + 3);
    let wav = (c0 == 'w' || c0 == 'W') && (c1 == 'a' || c1 == 'A') && (c2 == 'v' || c2 == 'V');
    if wav {
        ExtType::Wav
    } else {
        ExtType::Others
    }
}

/// When the last `m` characters of `s` are free of `c`, the suffix after the
/// last `c` keeps them: it is at least `m` long and ends in those characters.
proof fn lemma_suffix_after_last_keeps_tail(s: Seq<char>, c: char, m: int)
    requires
        0 <= m <= s.len(),
        forall|k: int| s.len() - m <= k < s.len() ==> s[k] != c,
    ensures
        suffix_after_last(s, c).len() >= m,
        suffix_after_last(s, c).skip(suffix_after_last(s, c).len() - m)
            =~= s.subrange(s.len() - m, s.len() as int),
    decreases s.len(),
{
    if m == 0 {
        assert(suffix_after_last(s, c).skip(suffix_after_last(s, c).len() as int)
            =~= s.subrange(s.len() as int, s.len() as int));
    } else {
        assert(s.len() > 0 && s.last() != c);
        lemma_suffix_after_last_keeps_tail(s.drop_last(), c, m - 1);
        let t = suffix_after_last(s.drop_last(), c);
        let u = t.push(s.last());
        assert(suffix_after_last(s, c) == u);
        assert forall|i: int| 0 <= i < m implies #[trigger] u.skip(u.len() - m)[i] == s[s.len() - m
            + i] by {
            assert(u.skip(u.len() - m)[i] == u[u.len() - m + i]);
            if i < m - 1 {
                assert(u[u.len() - m + i] == t[t.len() - (m - 1) + i]);
                assert(t.skip(t.len() - (m - 1))[i]
                    == s.drop_last().subrange(s.drop_last().len() - (m - 1),
                        s.drop_last().len() as int)[i]);
                assert(t[t.len() - (m - 1) + i] == s.drop_last()[s.len() - m + i]);
            } else {
                assert(u[u.len() - 1] == s.last());
            }
        }
        assert(u.skip(u.len() - m) =~= s.subrange(s.len() - m, s.len() as int));
    }
}

/// A path that ends in `.wav`, `.WAV`, `.Wav` or any other mix of case is
/// classified as WAV audio, provided the dot does not begin the path's last
/// segment: a segment such as `.wav` alone names a hidden file, which has no
/// extension and is classified as opaque.
pub proof fn lemma_wav_suffix_classified(p: Seq<char>)
    requires
        p.len() >= 5,
        p[p.len() - 5] != '/',
        p[p.len() - 4] == '.',
        p[p.len() - 3] == 'w' || p[p.len() - 3] == 'W',
        p[p.len() - 2] == 'a' || p[p.len() - 2] == 'A',
        p[p.len() - 1] == 'v' || p[p.len() - 1] == 'V',
    ensures
        spec_classify(p) == ExtType::Wav,
{
    lemma_suffix_after_last_keeps_tail(p, '/', 5);
    let name = suffix_after_last(p, '/');
    let tail = p.subrange(p.len() - 5, p.len() as int);
    assert(name.skip(name.len() - 5) =~= tail);
    assert(name[name.len() - 4] == '.') by {
        assert(name.skip(name.len() - 5)[1] == tail[1]);
    }
    assert(name[name.len() - 3] == p[p.len() - 3]) by {
        assert(name.skip(name.len() - 5)[2] == tail[2]);
    }
    assert(name[name.len() - 2] == p[p.len() - 2]) by {
        assert(name.skip(name.len() - 5)[3] == tail[3]);
    }
    assert(name[name.len() - 1] == p[p.len() - 1]) by {
        assert(name.skip(name.len() - 5)[4] == tail[4]);
    }
    assert(name.skip(1)[name.len() - 5] == '.');
    assert(contains_char(name.skip(1), '.'));
    lemma_suffix_after_last_at(name, '.', name.len() - 3);
    assert(extension_of(p) == Some(name.subrange(name.len() - 3, name.len() as int)));
    assert(is_wav_ext(name.subrange(name.len() - 3, name.len() as int)));
}

} // verus!
