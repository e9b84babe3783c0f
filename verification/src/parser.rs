//! Filename inspection: the dialect selector derived from a file path.

use vstd::prelude::*;
use vstd::string::StrSliceExecFns;
use vstd::string::StringExecFns;

verus! {

/// The characters of `s` after the last occurrence of `c` (the whole of
/// `s` when `c` does not occur).
pub open spec fn last_index_of(s: Seq<char>, c: char) -> int
    decreases s.len(),
{
    if s.len() == 0 {
        -1
    } else if s.last() == c {
        s.len() - 1
    } else {
        last_index_of(s.drop_last(), c)
    }
}

pub open spec fn suffix_after_last(s: Seq<char>, c: char) -> Seq<char> {
    s.subrange(last_index_of(s, c) + 1, s.len() as int)
}

/// The file extensions parsed as TypeScript.
pub open spec fn is_ts_ext(e: Seq<char>) -> bool {
    e == "ts"@ || e == "tsx"@ || e == "mts"@ || e == "cts"@ || e == "mtsx"@ || e == "ctsx"@
}

/// The file extensions parsed with JSX syntax enabled.
pub open spec fn is_jsx_ext(e: Seq<char>) -> bool {
    e == "tsx"@ || e == "jsx"@ || e == "mtsx"@ || e == "ctsx"@ || e == "mjsx"@ || e == "cjsx"@
}

/// What a file path says about the file: its base name, its extension,
/// and the dialect both select.
#[derive(Debug)]
pub struct FileInfo {
    pub extension: String,
    pub filename: String,
    pub is_jsx: bool,
    pub is_typescript: bool,
}

/// One past the last occurrence of `c` in `s`, or `0` when `c` does not
/// occur; `n` is the character length of `s`.
fn index_after_last(s: &str, c: char, n: usize) -> (r: usize)
    requires
        n == s@.len(),
    ensures
        r as int == last_index_of(s@, c) + 1,
        r <= n,
{
    let mut i: usize = n;
    proof {
        assert(s@.take(n as int) =~= s@);
    }
    loop
        invariant
            i <= n == s@.len(),
            last_index_of(s@, c) == last_index_of(s@.take(i as int), c),
        ensures
            i <= n,
            last_index_of(s@, c) == i - 1,
        decreases i,
    {
        if i == 0 {
            proof {
                assert(s@.take(0) =~= Seq::<char>::empty());
            }
            break;
        }
        let ch: char = s.get_char(i - 1);
        if ch == c {
            proof {
                assert(s@.take(i as int).last() == s@[i as int - 1]);
            }
            break;
        }
        proof {
            assert(s@.take(i as int).last() == s@[i as int - 1]);
            assert(s@.take(i as int).drop_last() =~= s@.take(i as int - 1));
        }
        i = i - 1;
    }
    i
}

/// Character-wise string equality.
fn str_eq(a: &str, b: &str) -> (r: bool)
    ensures
        r == (a@ == b@),
{
    let an: usize = a.unicode_len();
    let bn: usize = b.unicode_len();
    if an != bn {
        return false;
    }
    let mut i: usize = 0;
    while i < an
        invariant
            i <= an == a@.len(),
            an == b@.len(),
            forall|j: int| 0 <= j < i ==> (#[trigger] a@[j]) == b@[j],
        decreases an - i,
    {
        let ca: char = a.get_char(i);
        let cb: char = b.get_char(i);
        if ca != cb {
            return false;
        }
        i = i + 1;
    }
    proof {
        assert(a@ =~= b@);
    }
    true
}

/// Split a file path into base name and extension (the text after the
/// last `/` and, within that, after the last `.`), and classify the
/// dialect the extension selects: TypeScript for the `ts` family,
/// JSX-enabled for the `tsx`/`jsx` families.
pub fn parse_filename(filepath: &str) -> (info: FileInfo)
    ensures
        info.filename@ == suffix_after_last(filepath@, '/'),
        info.extension@ == suffix_after_last(suffix_after_last(filepath@, '/'), '.'),
        info.is_typescript == is_ts_ext(info.extension@),
        info.is_jsx == is_jsx_ext(info.extension@),
{
    let n: usize = filepath.unicode_len();
    let start: usize = index_after_last(filepath, '/', n);
    let fname: &str = filepath.substring_char(start, n);
    proof {
        assert(fname@ =~= suffix_after_last(filepath@, '/'));
    }
    let fn_len: usize = fname.unicode_len();
    let dot_start: usize = index_after_last(fname, '.', fn_len);
    let ext: &str = fname.substring_char(dot_start, fn_len);
    proof {
        assert(ext@ =~= suffix_after_last(fname@, '.'));
    }
    let is_typescript: bool = str_eq(ext, "ts") || str_eq(ext, "tsx") || str_eq(ext, "mts")
        || str_eq(ext, "cts") || str_eq(ext, "mtsx") || str_eq(ext, "ctsx");
    let is_jsx: bool = str_eq(ext, "tsx") || str_eq(ext, "jsx") || str_eq(ext, "mtsx") || str_eq(
        ext,
        "ctsx",
    ) || str_eq(ext, "mjsx") || str_eq(ext, "cjsx");
    FileInfo {
        extension: String::from_str(ext),
        filename: String::from_str(fname),
        is_jsx,
        is_typescript,
    }
}

} // verus!
