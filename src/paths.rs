use vstd::prelude::*;
use vstd::string::StringExecFns;

verus! {

/// The name under which a file at absolute path `abs` is stored in a
/// container, relative to the directory `base`; `None` when `abs` is not
/// `base` itself or beneath it. Both are taken as normalized absolute paths.
pub open spec fn relative_of(abs: Seq<char>, base: Seq<char>) -> Option<Seq<char>> {
    if base.len() > 0 && base.last() == '/' {
        if base.is_prefix_of(abs) {
            Some(abs.skip(base.len() as int))
        } else {
            None
        }
    } else if abs == base {
        Some(Seq::<char>::empty())
    } else if base.push('/').is_prefix_of(abs) {
        Some(abs.skip(base.len() + 1 as int))
    } else {
        None
    }
}

/// Whether the characters of `p` start `s` at position 0.
pub fn is_prefix(p: &str, s: &str) -> (r: bool)
    ensures
        r == p@.is_prefix_of(s@),
{
    let n = p.unicode_len();
    let m = s.unicode_len();
    if n > m {
        return false;
    }
    let mut i: usize = 0;
    while i < n
        invariant
            n == p@.len(),
            m == s@.len(),
            n <= m,
            i <= n,
            forall|j: int| 0 <= j < i ==> p@[j] == s@[j],
        decreases n - i,
    {
        if p.get_char(i) != s.get_char(i) {
            return false;
        }
        i = i + 1;
    }
    true
}

/// The name of the file at `abs` relative to the directory `base`, as
/// `relative_of` gives it.
pub fn relative_path(abs: &str, base: &str) -> (r: Option<String>)
    ensures
        r matches Some(v) ==> relative_of(abs@, base@) == Some(v@),
        r is None ==> relative_of(abs@, base@) is None,
{
    let n = base.unicode_len();
    let m = abs.unicode_len();
    if n > 0 && base.get_char(n - 1) == '/' {
        proof {
            assert(base@.last() == base@[n - 1]);
        }
        if is_prefix(base, abs) {
            let t = abs.substring_char(n, m);
            proof {
                assert(t@ =~= abs@.skip(n as int));
            }
            return Some(String::from_str(t));
        }
        return None;
    }
    if n == m && is_prefix(base, abs) {
        proof {
            assert(abs@ =~= base@);
        }
        return Some(String::new());
    }
    if n < m && is_prefix(base, abs) && abs.get_char(n) == '/' {
        let t = abs.substring_char(n + 1, m);
        proof {
            assert(base@.push('/') =~= abs@.take(n + 1));
            assert(t@ =~= abs@.skip(n + 1));
        }
        return Some(String::from_str(t));
    }
    proof {
        if base@.push('/').is_prefix_of(abs@) {
            assert(base@.is_prefix_of(abs@));
            assert(abs@[n as int] == base@.push('/')[n as int]);
        }
        if abs@ == base@ {
            assert(base@.is_prefix_of(abs@));
        }
    }
    None
}

} // verus!
