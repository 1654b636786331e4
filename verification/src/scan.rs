//! The filesystem scanner's decision logic: which walked entries are
//! candidate images. An entry is kept when it is a regular file, no
//! component of its path is the version-control metadata directory, and
//! its file name carries an allowed image extension, case-insensitively.

use vstd::prelude::*;
use crate::text::{ascii_lower_seq, ascii_lower, str_chars};

verus! {

/// The version-control metadata directory name whose whole subtree the
/// scanner excludes.
pub open spec fn vcs_dir_name() -> Seq<char> {
    seq!['.', 'g', 'i', 't']
}

/// The extension allow-list, on already lower-cased extensions.
pub open spec fn allowed_ext(e: Seq<char>) -> bool {
    ||| e == seq!['j', 'p', 'g']
    ||| e == seq!['j', 'p', 'e', 'g']
    ||| e == seq!['p', 'n', 'g']
    ||| e == seq!['g', 'i', 'f']
    ||| e == seq!['w', 'e', 'b', 'p']
    ||| e == seq!['b', 'm', 'p']
}

/// The extension of `name` begins right after position `i`: a dot stands
/// at `i`, not as the leading character, and no dot follows it.
pub open spec fn ext_starts_after(name: Seq<char>, i: int) -> bool {
    &&& 1 <= i < name.len()
    &&& name[i] == '.'
    &&& forall|j: int| i < j < name.len() ==> name[j] != '.'
}

/// The file name has an extension on the allow-list, case-insensitively.
pub open spec fn name_has_image_ext(name: Seq<char>) -> bool {
    exists|i: int|
        ext_starts_after(name, i) && allowed_ext(
            ascii_lower_seq(name.subrange(i + 1, name.len() as int)),
        )
}

/// Whether the three characters of `e` are exactly `a`, `b`, `c`.
fn eq3(e: &Vec<char>, a: char, b: char, c: char) -> (r: bool)
    requires
        e@.len() == 3,
    ensures
        r == (e@ == seq![a, b, c]),
{
    let r = e[0] == a && e[1] == b && e[2] == c;
    proof {
        if r {
            assert(e@ =~= seq![a, b, c]);
        }
    }
    r
}

/// Whether the four characters of `e` are exactly `a`, `b`, `c`, `d`.
fn eq4(e: &Vec<char>, a: char, b: char, c: char, d: char) -> (r: bool)
    requires
        e@.len() == 4,
    ensures
        r == (e@ == seq![a, b, c, d]),
{
    let r = e[0] == a && e[1] == b && e[2] == c && e[3] == d;
    proof {
        if r {
            assert(e@ =~= seq![a, b, c, d]);
        }
    }
    r
}

/// Whether an already lower-cased extension is on the allow-list.
fn is_allowed_ext(e: &Vec<char>) -> (r: bool)
    ensures
        r == allowed_ext(e@),
{
    let n = e.len();
    if n == 3 {
        eq3(e, 'j', 'p', 'g') || eq3(e, 'p', 'n', 'g') || eq3(e, 'g', 'i', 'f') || eq3(
            e,
            'b',
            'm',
            'p',
        )
    } else if n == 4 {
        eq4(e, 'j', 'p', 'e', 'g') || eq4(e, 'w', 'e', 'b', 'p')
    } else {
        false
    }
}

/// Whether `name` carries an image extension from the allow-list,
/// compared case-insensitively, as the part after the last dot of a file
/// name that does not begin with that dot.
pub fn has_image_extension(name: &str) -> (r: bool)
    ensures
        r == name_has_image_ext(name@),
{
    let v = str_chars(name);
    let n = v.len();
    // Find the position after the last dot, scanning from the end.
    let mut k: usize = n;
    while k > 0 && v[k - 1] != '.'
        invariant
            k <= n,
            n == v@.len(),
            v@ == name@,
            forall|j: int| k <= j < n ==> v@[j] != '.',
        decreases k,
    {
        k = k - 1;
    }
    if k <= 1 {
        // No dot at all, or only a leading dot: no extension.
        proof {
            assert(forall|i: int| !ext_starts_after(name@, i));
        }
        return false;
    }
    let dot = k - 1;
    // v[dot] == '.', and no dot stands after it.
    let mut ext: Vec<char> = Vec::new();
    let mut j: usize = dot + 1;
    while j < n
        invariant
            dot + 1 <= j <= n,
            n == v@.len(),
            v@ == name@,
            ext@ == ascii_lower_seq(v@.subrange(dot + 1, j as int)),
        decreases n - j,
    {
        ext.push(ascii_lower(v[j]));
        proof {
            assert(ext@ =~= ascii_lower_seq(v@.subrange(dot + 1, j + 1))) by {
                assert(v@.subrange(dot + 1, j + 1) =~= v@.subrange(dot + 1, j as int).push(
                    v@[j as int],
                ));
            }
        }
        j = j + 1;
    }
    let r = is_allowed_ext(&ext);
    proof {
        assert(v@.subrange(dot + 1, n as int) =~= name@.subrange(dot + 1, name@.len() as int));
        assert(ext_starts_after(name@, dot as int));
        // The last dot is the only place an extension can start.
        assert(forall|i: int|
            ext_starts_after(name@, i) ==> i == dot as int) by {
            assert forall|i: int| ext_starts_after(name@, i) implies i == dot as int by {
                if i < dot as int {
                    assert(name@[dot as int] == '.');
                }
            }
        }
    }
    r
}

/// One entry of a directory walk, as handed to the scanner's decision:
/// the full path (the entry's identity downstream), its path components
/// from the walk root, and whether it is a regular file.
pub struct ScanEntry {
    pub path: String,
    pub names: Vec<String>,
    pub is_file: bool,
}

/// The scanner keeps an entry when it is a regular file, none of its path
/// components is the version-control directory name, and its last
/// component has an allowed image extension.
pub open spec fn keep_spec(e: ScanEntry) -> bool {
    &&& e.is_file
    &&& e.names@.len() > 0
    &&& forall|i: int| 0 <= i < e.names@.len() ==> e.names@[i]@ != vcs_dir_name()
    &&& name_has_image_ext(e.names@.last()@)
}

/// The paths of the entries the scanner keeps, in walk order.
pub open spec fn kept_paths(s: Seq<ScanEntry>) -> Seq<String>
    decreases s.len(),
{
    if s.len() == 0 {
        Seq::empty()
    } else if keep_spec(s.last()) {
        kept_paths(s.drop_last()).push(s.last().path)
    } else {
        kept_paths(s.drop_last())
    }
}

/// Whether `name` is exactly the version-control directory name.
fn is_vcs_name(name: &str) -> (r: bool)
    ensures
        r == (name@ == vcs_dir_name()),
{
    let v = str_chars(name);
    if v.len() != 4 {
        return false;
    }
    let r = v[0] == '.' && v[1] == 'g' && v[2] == 'i' && v[3] == 't';
    proof {
        if r {
            assert(name@ =~= vcs_dir_name());
        }
    }
    r
}

/// The scanner's per-entry decision.
pub fn keep_entry(e: &ScanEntry) -> (r: bool)
    ensures
        r == keep_spec(*e),
{
    if !e.is_file {
        return false;
    }
    let len = e.names.len();
    if len == 0 {
        return false;
    }
    let mut i: usize = 0;
    while i < len
        invariant
            i <= len,
            len == e.names@.len(),
            forall|k: int| 0 <= k < i ==> e.names@[k]@ != vcs_dir_name(),
        decreases len - i,
    {
        if is_vcs_name(e.names[i].as_str()) {
            return false;
        }
        i = i + 1;
    }
    has_image_extension(e.names[len - 1].as_str())
}

/// The scanner's output over a walked directory tree: exactly the paths
/// of the kept entries, in walk order. Unreadable entries never reach
/// this point; the walk skips them and a partial input yields the partial
/// result.
pub fn scan_filter(entries: &Vec<ScanEntry>) -> (r: Vec<String>)
    ensures
        r@ == kept_paths(entries@),
{
    let n = entries.len();
    let mut out: Vec<String> = Vec::new();
    let mut i: usize = 0;
    while i < n
        invariant
            i <= n,
            n == entries@.len(),
            out@ == kept_paths(entries@.subrange(0, i as int)),
        decreases n - i,
    {
        proof {
            assert(entries@.subrange(0, i + 1).drop_last() =~= entries@.subrange(0, i as int));
            assert(entries@.subrange(0, i + 1).last() == entries@[i as int]);
        }
        if keep_entry(&entries[i]) {
            out.push(entries[i].path.clone());
        }
        i = i + 1;
    }
    proof {
        assert(entries@.subrange(0, n as int) =~= entries@);
    }
    out
}

/// The scanner's output holds a path exactly when some kept entry carries
/// it: regular files with an allowed extension outside any excluded
/// subtree, and nothing else.
pub proof fn lemma_scan_exactly(s: Seq<ScanEntry>)
    ensures
        forall|p: String|
            kept_paths(s).contains(p) <==> exists|i: int| 0 <= i < s.len() && keep_spec(#[trigger] s[i]) && s[i].path == p,
    decreases s.len(),
{
    if s.len() == 0 {
    } else {
        lemma_scan_exactly(s.drop_last());
        assert forall|p: String| kept_paths(s).contains(p) implies exists|i: int|
            0 <= i < s.len() && keep_spec(#[trigger] s[i]) && s[i].path == p by {
            if keep_spec(s.last()) && p == s.last().path {
                assert(keep_spec(s[s.len() - 1]) && s[s.len() - 1].path == p);
            } else {
                assert(kept_paths(s.drop_last()).contains(p)) by {
                    if keep_spec(s.last()) {
                        let j = choose|j: int|
                            0 <= j < kept_paths(s).len() && kept_paths(s)[j] == p;
                        assert(kept_paths(s)[j] == kept_paths(s.drop_last()).push(s.last().path)[j]);
                    }
                }
                let i = choose|i: int|
                    0 <= i < s.drop_last().len() && keep_spec(#[trigger] s.drop_last()[i])
                        && s.drop_last()[i].path == p;
                assert(s[i] == s.drop_last()[i]);
            }
        }
        assert forall|p: String|
            (exists|i: int| 0 <= i < s.len() && keep_spec(#[trigger] s[i]) && s[i].path == p)
            implies kept_paths(s).contains(p) by {
            let i = choose|i: int| 0 <= i < s.len() && keep_spec(#[trigger] s[i]) && s[i].path == p;
            if i == s.len() - 1 {
                assert(kept_paths(s).last() == p);
            } else {
                assert(s.drop_last()[i] == s[i]);
                assert(kept_paths(s.drop_last()).contains(p));
                let j = choose|j: int|
                    0 <= j < kept_paths(s.drop_last()).len() && kept_paths(s.drop_last())[j] == p;
                if keep_spec(s.last()) {
                    assert(kept_paths(s)[j] == p);
                }
            }
        }
    }
}

} // verus!
