//! File names in the downloads directory: which ones are WireGuard configurations to offer for
//! import, and which of those are installed already.

use vstd::prelude::*;
use vstd::string::*;

use crate::profiles::VpnConfig;
use crate::text::{chars_of, lowercase, to_lowercase};

verus! {

/// The position of the last `c` in `s`, or -1 when there is none.
pub open spec fn last_index_of(s: Seq<char>, c: char) -> int
    decreases s.len(),
{
    if s.len() == 0 {
        -1
    } else if s.last() == c {
        s.len() - 1
    } else {
        last_index_of(s.drop_last(), c)
    }
}

proof fn lemma_last_index_of(s: Seq<char>, c: char)
    ensures
        -1 <= last_index_of(s, c) < s.len(),
    decreases s.len(),
{
    if s.len() > 0 && s.last() != c {
        lemma_last_index_of(s.drop_last(), c);
    }
}

/// The file name splits at a dot into stem and extension, as `Path::extension` and
/// `Path::file_stem` decide it: it has a `.` after its first character, and it is not `..`.
pub open spec fn has_extension(name: Seq<char>) -> bool {
    name != seq!['.', '.'] && last_index_of(name, '.') > 0
}

/// The extension of a file name, as `Path::extension` gives it: what follows the last `.`.
pub open spec fn extension_of(name: Seq<char>) -> Option<Seq<char>> {
    if has_extension(name) {
        Some(name.skip(last_index_of(name, '.') + 1))
    } else {
        None
    }
}

/// The stem of a file name, as `Path::file_stem` gives it: what precedes the last `.`, or the
/// whole name when it has no extension.
pub open spec fn stem_of(name: Seq<char>) -> Seq<char> {
    if has_extension(name) {
        name.take(last_index_of(name, '.'))
    } else {
        name
    }
}

/// A file that the import view offers: its extension is `conf` or `wireguard`.
pub open spec fn is_config_file_name(name: Seq<char>) -> bool {
    extension_of(name) matches Some(e) && (e == "conf"@ || e == "wireguard"@)
}

/// Tests two texts for equality.
fn text_eq(a: &str, b: &str) -> (r: bool)
    ensures
        r == (a@ == b@),
{
    let x = chars_of(a);
    let y = chars_of(b);
    if x.len() != y.len() {
        return false;
    }
    let n = x.len();
    for i in 0..n
        invariant
            n == x@.len() == y@.len(),
            x@ == a@,
            y@ == b@,
            forall|j: int| 0 <= j < i ==> x@[j] == y@[j],
    {
        if x[i] != y[i] {
            return false;
        }
    }
    proof {
        assert(x@ =~= y@);
    }
    true
}

/// The position of the last `.` in the name, when the name has an extension.
fn extension_dot(v: &Vec<char>) -> (k: Option<usize>)
    ensures
        k is Some <==> has_extension(v@),
        k matches Some(i) ==> i == last_index_of(v@, '.') && i < v@.len(),
{
    let n = v.len();
    if n == 2 && v[0] == '.' && v[1] == '.' {
        proof {
            assert(v@ =~= seq!['.', '.']);
        }
        return None;
    }
    proof {
        assert(v@ != seq!['.', '.']);
        assert(v@.take(n as int) =~= v@);
    }
    let mut i = n;
    while i > 0
        invariant
            i <= n == v@.len(),
            v@ != seq!['.', '.'],
            last_index_of(v@, '.') == last_index_of(v@.take(i as int), '.'),
        decreases i,
    {
        proof {
            assert(v@.take(i as int).drop_last() =~= v@.take(i - 1));
        }
        if v[i - 1] == '.' {
            if i - 1 > 0 {
                return Some(i - 1);
            } else {
                return None;
            }
        }
        i = i - 1;
    }
    None
}

/// The extension of a file name, as `Path::extension` gives it.
pub fn extension(name: &str) -> (r: Option<String>)
    ensures
        r matches Some(e) ==> extension_of(name@) == Some(e@),
        r is None ==> extension_of(name@) is None,
{
    let v = chars_of(name);
    let dot = extension_dot(&v);
    match dot {
        Some(k) => {
            proof {
                lemma_last_index_of(v@, '.');
            }
            assert(k < v.len());
            Some(name.substring_char(k + 1, v.len()).to_owned())
        },
        None => None,
    }
}

/// The stem of a file name, as `Path::file_stem` gives it.
pub fn file_stem(name: &str) -> (r: String)
    ensures
        r@ == stem_of(name@),
{
    let v = chars_of(name);
    match extension_dot(&v) {
        Some(k) => {
            proof {
                lemma_last_index_of(v@, '.');
            }
            name.substring_char(0, k).to_owned()
        },
        None => name.to_owned(),
    }
}

/// The import view offers the file: its extension is `conf` or `wireguard`.
pub fn is_config_file(name: &str) -> (b: bool)
    ensures
        b == is_config_file_name(name@),
{
    match extension(name) {
        Some(e) => text_eq(e.as_str(), "conf") || text_eq(e.as_str(), "wireguard"),
        None => false,
    }
}

/// Some profile bears the file's stem as its name, compared in lower case.
pub open spec fn installed(file_name: Seq<char>, vpns: Seq<VpnConfig>) -> bool {
    exists|i: int|
        0 <= i < vpns.len() && lowercase(#[trigger] vpns[i].name@) == lowercase(stem_of(file_name))
}

/// The configuration file is installed already: a profile bears its stem as name, in lower case.
pub fn is_installed(file_name: &str, vpns: &Vec<VpnConfig>) -> (b: bool)
    ensures
        b == installed(file_name@, vpns@),
{
    let stem = file_stem(file_name);
    let wanted = to_lowercase(stem.as_str());
    let n = vpns.len();
    for i in 0..n
        invariant
            n == vpns@.len(),
            wanted@ == lowercase(stem_of(file_name@)),
            forall|j: int| 0 <= j < i ==> lowercase(#[trigger] vpns@[j].name@) != wanted@,
    {
        let name = to_lowercase(vpns[i].name.as_str());
        if name == wanted {
            return true;
        }
    }
    false
}

} // verus!
