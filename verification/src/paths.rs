//! Paths as text: segments separated by `/`.
//!
//! The functions here say, on strings, how a relative path is put under a
//! directory, what the directory of a path is, and how a leading home marker
//! is replaced by the home directory.

use crate::text::{chars_of, lemma_run_end, piece, run_end, run_start, scan_backward, scan_forward, CharClass};
use vstd::prelude::*;

verus! {

/// A path that starts at the root.
pub open spec fn is_absolute(p: Seq<char>) -> bool {
    p.len() > 0 && p[0] == '/'
}

/// `rel` under the directory `base`. An absolute `rel` stands for itself;
/// otherwise one separator comes between the two unless `base` is empty or
/// ends with one already.
pub open spec fn join(base: Seq<char>, rel: Seq<char>) -> Seq<char> {
    if is_absolute(rel) {
        rel
    } else if base.len() == 0 || base.last() == '/' {
        base + rel
    } else {
        base + seq!['/'] + rel
    }
}

/// The directory that holds `p`: `p` without its last segment and without
/// the separators around it. The root and the empty path have none; a single
/// segment has the empty path; a segment directly under the root has the
/// root.
pub open spec fn parent(p: Seq<char>) -> Option<Seq<char>> {
    let end = run_start(p, p.len() as int, CharClass::Slash);
    let name = run_start(p, end, CharClass::NotSlash);
    let cut = run_start(p, name, CharClass::Slash);
    if end == 0 {
        None
    } else if name == 0 {
        Some(Seq::empty())
    } else if cut == 0 {
        Some(p.subrange(0, 1))
    } else {
        Some(p.subrange(0, cut))
    }
}

/// Whether the first segment of `p` is the home marker `~`.
pub open spec fn has_home_marker(p: Seq<char>) -> bool {
    p.len() > 0 && p[0] == '~' && (p.len() == 1 || p[1] == '/')
}

/// What follows the home marker and the separators behind it.
pub open spec fn after_home_marker(p: Seq<char>) -> Seq<char> {
    p.skip(run_end(p, 1, CharClass::Slash))
}

/// `p` with a leading home marker replaced by `home`. Only the first segment
/// is looked at: a `~` further down the path stays. A path without the
/// marker is returned as it is.
pub open spec fn tilde_expand(p: Seq<char>, home: Seq<char>) -> Seq<char> {
    if has_home_marker(p) {
        if after_home_marker(p).len() == 0 {
            home
        } else {
            join(home, after_home_marker(p))
        }
    } else {
        p
    }
}

/// Puts `rel` under the directory `base`.
pub fn join_path(base: &str, rel: &str) -> (r: String)
    ensures
        r@ == join(base@, rel@),
{
    let b = chars_of(base);
    let r = chars_of(rel);
    if r.len() > 0 && r[0] == '/' {
        return rel.to_owned();
    }
    let mut out = base.to_owned();
    if b.len() > 0 && b[b.len() - 1] != '/' {
        proof {
            reveal_strlit("/");
        }
        out.append("/");
        assert("/"@ =~= seq!['/']);
    }
    out.append(rel);
    out
}

/// The directory that holds `p`, if it has one.
pub fn parent_path(p: &str) -> (r: Option<String>)
    ensures
        match parent(p@) {
            Some(d) => r matches Some(s) && s@ == d,
            None => r is None,
        },
{
    let v = chars_of(p);
    let end = scan_backward(&v, v.len(), CharClass::Slash);
    let name = scan_backward(&v, end, CharClass::NotSlash);
    let cut = scan_backward(&v, name, CharClass::Slash);
    if end == 0 {
        None
    } else if name == 0 {
        let s = piece(p, 0, 0);
        assert(s@ =~= Seq::<char>::empty());
        Some(s)
    } else if cut == 0 {
        Some(piece(p, 0, 1))
    } else {
        Some(piece(p, 0, cut))
    }
}

/// Replaces a leading home marker of `p` by `home`.
pub fn expand_home(p: &str, home: &str) -> (r: String)
    ensures
        r@ == tilde_expand(p@, home@),
{
    let v = chars_of(p);
    if v.len() > 0 && v[0] == '~' && (v.len() == 1 || v[1] == '/') {
        let k = scan_forward(&v, 1, CharClass::Slash);
        if k == v.len() {
            home.to_owned()
        } else {
            let rest = piece(p, k, v.len());
            assert(rest@ =~= after_home_marker(p@));
            join_path(home, rest.as_str())
        }
    } else {
        p.to_owned()
    }
}

/// The path that an expansion returns holds no marker of its own making:
/// a path without the marker is unchanged, and behind an expanded marker
/// the rest of the path is kept to the letter.
pub proof fn lemma_expansion_keeps_rest(p: Seq<char>, home: Seq<char>)
    ensures
        !has_home_marker(p) ==> tilde_expand(p, home) == p,
        has_home_marker(p) ==> exists|k: int|
            0 <= k <= tilde_expand(p, home).len() && #[trigger] tilde_expand(p, home).skip(k)
                == after_home_marker(p),
{
    if has_home_marker(p) {
        let rest = after_home_marker(p);
        let out = tilde_expand(p, home);
        lemma_run_end(p, 1, CharClass::Slash);
        if rest.len() == 0 {
            assert(out.skip(out.len() as int) =~= rest);
        } else {
            assert(!is_absolute(rest));
            if home.len() == 0 || home.last() == '/' {
                assert(out.skip(home.len() as int) =~= rest);
            } else {
                assert(out.skip(home.len() as int + 1) =~= rest);
            }
        }
    }
}

} // verus!
