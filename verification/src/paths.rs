//! The file-name component of a destination path, following the platform
//! convention: trailing separators are ignored, a lone `.` component is
//! skipped, and a path that is empty, is a root, or ends in a `..` component
//! has no file name.

use vstd::prelude::*;
use vstd::string::StrSliceExecFns;

verus! {

/// The characters of a path's last component: everything after the last
/// separator, or the whole path when it has no separator.
pub open spec fn spec_basename(s: Seq<char>) -> Seq<char>
    decreases s.len(),
{
    if s.len() == 0 {
        Seq::empty()
    } else if s.last() == '/' {
        Seq::empty()
    } else {
        spec_basename(s.drop_last()) + seq![s.last()]
    }
}

/// The file-name component of a path, or `None` when it has none.
pub open spec fn spec_file_name(s: Seq<char>) -> Option<Seq<char>>
    decreases s.len(),
{
    if s.len() == 0 {
        None
    } else if s.last() == '/' {
        spec_file_name(s.drop_last())
    } else if spec_basename(s) == seq!['.'] {
        spec_file_name(s.drop_last())
    } else if spec_basename(s) == seq!['.', '.'] {
        None
    } else {
        Some(spec_basename(s))
    }
}

/// Returns the file-name component of a path, if it has one.
pub fn file_name_of(path: &str) -> (r: Option<String>)
    ensures
        match r {
            Some(name) => spec_file_name(path@) == Some(name@),
            None => spec_file_name(path@) is None,
        },
    decreases path@.len(),
{
    let n = path.unicode_len();
    if n == 0 {
        return None;
    }
    if path.get_char(n - 1) == '/' {
        assert(path@.drop_last() == path@.subrange(0, n - 1));
        return file_name_of(path.substring_char(0, n - 1));
    }
    let mut start: usize = n;
    proof {
        assert(path@.take(n as int) =~= path@);
        assert(path@.skip(n as int) =~= Seq::<char>::empty());
    }
    while start > 0 && path.get_char(start - 1) != '/'
        invariant
            start <= n,
            n == path@.len(),
            spec_basename(path@) =~= spec_basename(path@.take(start as int)) + path@.skip(
                start as int,
            ),
        decreases start,
    {
        proof {
            assert(path@.take(start as int).drop_last() =~= path@.take(start - 1));
            assert(seq![path@[start - 1]] + path@.skip(start as int) =~= path@.skip(start - 1));
        }
        start = start - 1;
    }
    proof {
        if start > 0 {
            assert(spec_basename(path@.take(start as int)) =~= Seq::<char>::empty());
        } else {
            assert(path@.take(0int) =~= Seq::<char>::empty());
            assert(path@.skip(0int) =~= path@);
        }
        assert(spec_basename(path@) =~= path@.skip(start as int));
    }
    let comp = path.substring_char(start, n);
    let clen = comp.unicode_len();
    if clen == 1 && comp.get_char(0) == '.' {
        proof {
            assert(spec_basename(path@) =~= seq!['.']);
            assert(path@.drop_last() == path@.subrange(0, n - 1));
        }
        return file_name_of(path.substring_char(0, n - 1));
    }
    if clen == 2 && comp.get_char(0) == '.' && comp.get_char(1) == '.' {
        proof {
            assert(spec_basename(path@) =~= seq!['.', '.']);
        }
        return None;
    }
    proof {
        if spec_basename(path@) == seq!['.'] {
            assert(comp@.len() == 1 && comp@[0] == '.');
        }
        if spec_basename(path@) == seq!['.', '.'] {
            assert(comp@.len() == 2 && comp@[0] == '.' && comp@[1] == '.');
        }
    }
    Some(comp.to_owned())
}

} // verus!
