//! Names of the files that sit beside a recording.

use vstd::prelude::*;
use vstd::string::*;

verus! {

/// Position of the last `c` in `s`, or -1 when there is none.
pub open spec fn last_index(s: Seq<char>, c: char) -> int
    decreases s.len(),
{
    if s.len() == 0 {
        -1
    } else if s.last() == c {
        s.len() - 1
    } else {
        last_index(s.drop_last(), c)
    }
}

proof fn lemma_last_index_range(s: Seq<char>, c: char)
    ensures
        -1 <= last_index(s, c) < s.len(),
        last_index(s, c) >= 0 ==> s[last_index(s, c)] == c,
    decreases s.len(),
{
    if s.len() > 0 && s.last() != c {
        lemma_last_index_range(s.drop_last(), c);
    }
}

/// The last `c` in `s`.
fn find_last(s: &str, c: char) -> (r: Option<usize>)
    ensures
        last_index(s@, c) == -1 ==> r is None,
        last_index(s@, c) >= 0 ==> r == Some(last_index(s@, c) as usize),
{
    let n = s.unicode_len();
    let mut i: usize = n;
    assert(s@.subrange(0, n as int) =~= s@);
    while i > 0
        invariant
            i <= n,
            n == s@.len(),
            last_index(s@, c) == last_index(s@.subrange(0, i as int), c),
        decreases i,
    {
        let ch = s.get_char(i - 1);
        if ch == c {
            assert(s@.subrange(0, i as int).last() == c);
            return Some(i - 1);
        }
        assert(s@.subrange(0, i as int).drop_last() =~= s@.subrange(0, i - 1));
        i = i - 1;
    }
    assert(s@.subrange(0, 0) =~= Seq::<char>::empty());
    None
}

/// The last component of a `/`-separated path.
pub open spec fn file_name(p: Seq<char>) -> Seq<char> {
    p.subrange(last_index(p, '/') + 1, p.len() as int)
}

/// A file name without its extension; a name whose only dot leads it has
/// none, and an empty name stands for `recording`.
pub open spec fn file_stem(name: Seq<char>) -> Seq<char> {
    if name.len() == 0 {
        "recording"@
    } else if last_index(name, '.') <= 0 {
        name
    } else {
        name.subrange(0, last_index(name, '.'))
    }
}

/// `video.mp4` becomes `video_mouse.json` in the same directory.
pub open spec fn spec_mouse_data_path(p: Seq<char>) -> Seq<char> {
    let slash = last_index(p, '/');
    let tail = file_stem(file_name(p)) + "_mouse.json"@;
    if slash < 0 {
        tail
    } else {
        p.subrange(0, slash + 1) + tail
    }
}

/// Path of the mouse-data file that belongs to a video file.
pub fn mouse_data_path(video_path: &str) -> (r: String)
    ensures
        r@ == spec_mouse_data_path(video_path@),
{
    proof {
        lemma_last_index_range(video_path@, '/');
    }
    let n = video_path.unicode_len();
    let slash = find_last(video_path, '/');
    let name_start: usize = match slash {
        Some(k) => k + 1,
        None => 0,
    };
    let name = video_path.substring_char(name_start, n);
    let mut out = match slash {
        Some(k) => String::from_str(video_path.substring_char(0, k + 1)),
        None => String::new(),
    };
    let name_len = name.unicode_len();
    if name_len == 0 {
        out.append("recording");
    } else {
        proof {
            lemma_last_index_range(name@, '.');
        }
        match find_last(name, '.') {
            Some(d) => {
                if d == 0 {
                    out.append(name);
                } else {
                    out.append(name.substring_char(0, d));
                }
            },
            None => {
                out.append(name);
            },
        }
    }
    out.append("_mouse.json");
    proof {
        assert(name@ == file_name(video_path@));
    }
    assert(out@ =~= spec_mouse_data_path(video_path@));
    out
}

} // verus!
