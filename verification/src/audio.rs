use vstd::prelude::*;

use crate::text::chars_vec;

verus! {

/// The final path segment: everything after the last `'/'`, or the whole
/// path when it holds no `'/'`.
pub open spec fn basename_of(s: Seq<char>) -> Seq<char>
    decreases s.len(),
{
    if s.len() == 0 {
        seq![]
    } else if s.last() == '/' {
        seq![]
    } else {
        basename_of(s.drop_last()).push(s.last())
    }
}

/// The extension of a file name: what follows its last `'.'`, except that a
/// dot in the leading position does not begin an extension (a lone hidden
/// file such as `.config` has none).
pub open spec fn file_ext_of(b: Seq<char>) -> Option<Seq<char>>
    decreases b.len(),
{
    if b.len() <= 1 {
        None
    } else if b.last() == '.' {
        Some(seq![])
    } else {
        match file_ext_of(b.drop_last()) {
            Some(e) => Some(e.push(b.last())),
            None => None,
        }
    }
}

/// Does the path name an audio file: its basename carries one of the
/// recognized audio extensions?
pub open spec fn has_audio_ext(path: Seq<char>) -> bool {
    match file_ext_of(basename_of(path)) {
        Some(e) => e == "mp3"@ || e == "aac"@ || e == "m4a"@ || e == "wav"@,
        None => false,
    }
}

/// The audio paths among `paths`, in their given order.
pub open spec fn audio_paths_of(paths: Seq<Seq<char>>) -> Seq<Seq<char>>
    decreases paths.len(),
{
    if paths.len() == 0 {
        seq![]
    } else {
        audio_paths_of(paths.drop_last()) + (if has_audio_ext(paths.last()) {
            seq![paths.last()]
        } else {
            seq![]
        })
    }
}

/// The views of a sequence of strings.
pub open spec fn str_views(v: Seq<String>) -> Seq<Seq<char>> {
    v.map_values(|p: String| p@)
}

proof fn lemma_basename_suffix(s: Seq<char>, k: int)
    requires
        0 <= k <= s.len(),
        forall|i: int| k <= i < s.len() ==> s[i] != '/',
        k > 0 ==> s[k - 1] == '/',
    ensures
        basename_of(s) == s.subrange(k, s.len() as int),
    decreases s.len(),
{
    if s.len() == k {
        assert(basename_of(s) =~= s.subrange(k, s.len() as int));
    } else {
        assert(s[s.len() - 1] != '/');
        lemma_basename_suffix(s.drop_last(), k);
        assert(s.drop_last().subrange(k, s.len() - 1) =~= s.subrange(k, s.len() - 1));
        assert(s.subrange(k, s.len() - 1).push(s.last()) =~= s.subrange(k, s.len() as int));
    }
}

proof fn lemma_ext_some(b: Seq<char>, j: int)
    requires
        2 <= j <= b.len(),
        b[j - 1] == '.',
        forall|i: int| j <= i < b.len() ==> b[i] != '.',
    ensures
        file_ext_of(b) == Some(b.subrange(j, b.len() as int)),
    decreases b.len(),
{
    if b.len() == j {
        assert(b.last() == '.');
        assert(b.subrange(j, b.len() as int) =~= Seq::<char>::empty());
    } else {
        assert(b[b.len() - 1] != '.');
        lemma_ext_some(b.drop_last(), j);
        assert(b.drop_last().subrange(j, b.len() - 1) =~= b.subrange(j, b.len() - 1));
        assert(b.subrange(j, b.len() - 1).push(b.last()) =~= b.subrange(j, b.len() as int));
    }
}

proof fn lemma_ext_none(b: Seq<char>)
    requires
        forall|i: int| 1 <= i < b.len() ==> b[i] != '.',
    ensures
        file_ext_of(b) is None,
    decreases b.len(),
{
    if b.len() > 1 {
        assert(b[b.len() - 1] != '.');
        lemma_ext_none(b.drop_last());
    }
}

/// Does the path name a file with one of the recognized audio extensions?
pub fn is_audio_path(path: &str) -> (r: bool)
    ensures
        r == has_audio_ext(path@),
{
    let cs = chars_vec(path);
    let n = cs.len();
    // Index right after the last '/'; 0 when the path holds none.
    let mut k: usize = 0;
    let mut i: usize = 0;
    while i < n
        invariant
            n == cs.len(),
            k <= i <= n,
            forall|j: int| k <= j < i ==> cs@[j] != '/',
            k > 0 ==> cs@[k - 1] == '/',
        decreases n - i,
    {
        if cs[i] == '/' {
            k = i + 1;
        }
        i += 1;
    }
    proof {
        lemma_basename_suffix(cs@, k as int);
    }
    // Index right after the last '.' of the basename that can begin an
    // extension (so at basename position 1 or later).
    let mut dot_end: usize = 0;
    let mut found = false;
    let mut i2: usize = k;
    while i2 < n
        invariant
            n == cs.len(),
            k <= i2 <= n,
            found ==> k + 2 <= dot_end <= i2 && cs@[dot_end - 1] == '.',
            found ==> forall|j: int| dot_end <= j < i2 ==> cs@[j] != '.',
            !found ==> forall|j: int| k + 1 <= j < i2 ==> cs@[j] != '.',
        decreases n - i2,
    {
        if i2 > k && cs[i2] == '.' {
            dot_end = i2 + 1;
            found = true;
        }
        i2 += 1;
    }
    let ghost bn = cs@.subrange(k as int, n as int);
    let r = if found && n - dot_end == 3 {
        let c0 = cs[dot_end];
        let c1 = cs[dot_end + 1];
        let c2 = cs[dot_end + 2];
        (c0 == 'm' && c1 == 'p' && c2 == '3') || (c0 == 'a' && c1 == 'a' && c2 == 'c') || (c0
            == 'm' && c1 == '4' && c2 == 'a') || (c0 == 'w' && c1 == 'a' && c2 == 'v')
    } else {
        false
    };
    proof {
        reveal_strlit("mp3");
        reveal_strlit("aac");
        reveal_strlit("m4a");
        reveal_strlit("wav");
        if found {
            lemma_ext_some(bn, dot_end - k);
            let e = bn.subrange(dot_end - k, bn.len() as int);
            assert(e =~= cs@.subrange(dot_end as int, n as int));
            assert(file_ext_of(basename_of(cs@)) == Some(e));
            if n - dot_end == 3 {
                assert(e.len() == 3);
                assert(e[0] == cs@[dot_end as int]);
                assert(e[1] == cs@[dot_end + 1]);
                assert(e[2] == cs@[dot_end + 2]);
                assert((e == "mp3"@) <==> (e =~= "mp3"@));
                assert((e == "aac"@) <==> (e =~= "aac"@));
                assert((e == "m4a"@) <==> (e =~= "m4a"@));
                assert((e == "wav"@) <==> (e =~= "wav"@));
            } else {
                assert(e.len() != 3);
            }
        } else {
            assert(forall|i: int| 1 <= i < bn.len() ==> bn[i] == cs@[k + i]);
            lemma_ext_none(bn);
        }
        assert(r == has_audio_ext(path@));
    }
    r
}

/// Keeps the paths that name audio files, in their given order.
pub fn get_audio_paths(paths: Vec<String>) -> (r: Vec<String>)
    ensures
        str_views(r@) == audio_paths_of(str_views(paths@)),
{
    let mut out: Vec<String> = Vec::new();
    let n = paths.len();
    let mut i: usize = 0;
    while i < n
        invariant
            n == paths.len(),
            i <= n,
            str_views(out@) == audio_paths_of(str_views(paths@).take(i as int)),
        decreases n - i,
    {
        let keep = is_audio_path(paths[i].as_str());
        if keep {
            out.push(paths[i].clone());
        }
        proof {
            assert(str_views(paths@).take(i + 1).drop_last() =~= str_views(paths@).take(i as int));
            assert(str_views(paths@).take(i + 1).last() == paths@[i as int]@);
            if keep {
                assert(str_views(out@) =~= audio_paths_of(str_views(paths@).take(i + 1)));
            } else {
                assert(str_views(out@) =~= audio_paths_of(str_views(paths@).take(i + 1)));
            }
        }
        i += 1;
    }
    proof {
        assert(str_views(paths@).take(n as int) =~= str_views(paths@));
    }
    out
}

} // verus!
