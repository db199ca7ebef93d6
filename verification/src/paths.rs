//! A small model of file-system paths as character sequences.
//!
//! Paths are plain strings; a `/` separates components, and a file name's
//! extension is the text after its last dot.  The spec functions here are the
//! vocabulary of every contract that talks about paths.

use vstd::prelude::*;
use vstd::string::StrSliceExecFns;
use vstd::string::StringExecFns;

verus! {

/// The position of the last occurrence of `c` in `s`, if there is one.
pub open spec fn last_index_of(s: Seq<char>, c: char) -> Option<int>
    decreases s.len(),
{
    if s.len() == 0 {
        None
    } else if s[s.len() - 1] == c {
        Some(s.len() - 1)
    } else {
        last_index_of(s.take(s.len() - 1), c)
    }
}

/// `last_index_of` names the last occurrence: the character there is `c` and
/// no later character is.
pub proof fn lemma_last_index_of(s: Seq<char>, c: char)
    ensures
        match last_index_of(s, c) {
            Some(i) => 0 <= i < s.len() && s[i] == c && (forall|j: int|
                i < j < s.len() ==> s[j] != c),
            None => forall|j: int| 0 <= j < s.len() ==> s[j] != c,
        },
    decreases s.len(),
{
    if s.len() != 0 && s[s.len() - 1] != c {
        let t = s.take(s.len() - 1);
        lemma_last_index_of(t, c);
        assert forall|j: int| 0 <= j < s.len() - 1 implies s[j] == t[j] by {
        }
    }
}

/// The extension of a file name: the text after the last dot, except that a
/// name whose only dot is its first character has no extension.
pub open spec fn extension_spec(name: Seq<char>) -> Option<Seq<char>> {
    match last_index_of(name, '.') {
        Some(i) => if i > 0 {
            Some(name.subrange(i + 1, name.len() as int))
        } else {
            None
        },
        None => None,
    }
}

/// The parent of a path: the text before the last separator.  A path whose
/// only separator leads it sits directly under the root, so its parent is
/// the root itself; the root alone, like a bare name, has no parent.
pub open spec fn parent_spec(path: Seq<char>) -> Option<Seq<char>> {
    match last_index_of(path, '/') {
        Some(i) => if i > 0 {
            Some(path.take(i))
        } else if path.len() == 1 {
            None
        } else {
            Some(seq!['/'])
        },
        None => None,
    }
}

/// The final component of a path: the text after the last separator, or the
/// whole path when it has none.
pub open spec fn file_name_spec(path: Seq<char>) -> Seq<char> {
    match last_index_of(path, '/') {
        Some(i) => path.subrange(i + 1, path.len() as int),
        None => path,
    }
}

/// `base` extended by the component `name`, with exactly one separator
/// between them.
pub open spec fn join_spec(base: Seq<char>, name: Seq<char>) -> Seq<char> {
    if base.len() == 0 {
        name
    } else if base[base.len() - 1] == '/' {
        base + name
    } else {
        base + seq!['/'] + name
    }
}

/// The position of the last occurrence of `c` in `s`, scanning from the end.
pub fn rfind_char(s: &str, c: char) -> (r: Option<usize>)
    ensures
        match r {
            Some(i) => last_index_of(s@, c) == Some(i as int),
            None => last_index_of(s@, c) is None,
        },
{
    let len = s.unicode_len();
    let mut i = len;
    proof {
        assert(s@.take(len as int) =~= s@);
    }
    while i > 0
        invariant
            i <= len,
            len == s@.len(),
            last_index_of(s@, c) == last_index_of(s@.take(i as int), c),
        decreases i,
    {
        i = i - 1;
        let ch = s.get_char(i);
        proof {
            assert(s@.take(i as int + 1).len() == i + 1);
            assert(s@.take(i as int + 1)[i as int] == s@[i as int]);
        }
        if ch == c {
            return Some(i);
        }
        proof {
            assert(s@.take(i as int + 1).take(i as int) =~= s@.take(i as int));
        }
    }
    proof {
        assert(s@.take(0) =~= Seq::<char>::empty());
    }
    None
}

/// Whether `name` carries exactly the extension `extension`.
pub fn has_extension(name: &str, extension: &str) -> (b: bool)
    ensures
        b == (extension_spec(name@) == Some(extension@)),
{
    let len = s_len(name);
    let elen = s_len(extension);
    match rfind_char(name, '.') {
        None => false,
        Some(i) => {
            if i == 0 {
                false
            } else {
                proof {
                    lemma_last_index_of(name@, '.');
                }
                let ghost sub = name@.subrange(i as int + 1, name@.len() as int);
                if len - i - 1 != elen {
                    proof {
                        assert(sub.len() == len - i - 1);
                    }
                    false
                } else {
                    let mut j: usize = 0;
                    while j < elen
                        invariant
                            elen == extension@.len(),
                            len == name@.len(),
                            0 < i < len,
                            last_index_of(name@, '.') == Some(i as int),
                            elen == len - i - 1,
                            j <= elen,
                            sub == name@.subrange(i as int + 1, name@.len() as int),
                            forall|k: int| 0 <= k < j ==> sub[k] == extension@[k],
                        decreases elen - j,
                    {
                        let a = name.get_char(i + 1 + j);
                        let e = extension.get_char(j);
                        if a != e {
                            proof {
                                assert(sub[j as int] == name@[i + 1 + j as int]);
                                assert(sub[j as int] != extension@[j as int]);
                                assert(extension_spec(name@) == Some(sub));
                                assert(sub != extension@);
                            }
                            return false;
                        }
                        proof {
                            assert(sub[j as int] == name@[i + 1 + j as int]);
                        }
                        j = j + 1;
                    }
                    proof {
                        assert(sub =~= extension@);
                    }
                    true
                }
            }
        },
    }
}

/// The parent directory of `path`, if the path has one.
pub fn parent_of(path: &str) -> (r: Option<String>)
    ensures
        match r {
            Some(p) => parent_spec(path@) == Some(p@),
            None => parent_spec(path@) is None,
        },
{
    match rfind_char(path, '/') {
        Some(i) => {
            proof {
                lemma_last_index_of(path@, '/');
            }
            if i > 0 {
                proof {
                    assert(path@.subrange(0, i as int) =~= path@.take(i as int));
                }
                Some(String::from_str(path.substring_char(0, i)))
            } else if path.unicode_len() == 1 {
                None
            } else {
                proof {
                    reveal_strlit("/");
                    assert("/"@ =~= seq!['/']);
                }
                Some(String::from_str("/"))
            }
        },
        None => None,
    }
}

/// The final component of `path`.
pub fn file_name_of(path: &str) -> (r: String)
    ensures
        r@ == file_name_spec(path@),
{
    match rfind_char(path, '/') {
        Some(i) => {
            proof {
                lemma_last_index_of(path@, '/');
            }
            let len = s_len(path);
            String::from_str(path.substring_char(i + 1, len))
        },
        None => String::from_str(path),
    }
}

/// `base` extended by the component `name`.
pub fn join_path(base: &str, name: &str) -> (r: String)
    ensures
        r@ == join_spec(base@, name@),
{
    let len = s_len(base);
    if len == 0 {
        String::from_str(name)
    } else {
        let last = base.get_char(len - 1);
        let mut r = String::from_str(base);
        if last != '/' {
            proof {
                reveal_strlit("/");
                assert("/"@ =~= seq!['/']);
            }
            r.append("/");
        }
        r.append(name);
        r
    }
}

/// The length of `s` in characters.
fn s_len(s: &str) -> (r: usize)
    ensures
        r == s@.len(),
{
    s.unicode_len()
}

} // verus!
