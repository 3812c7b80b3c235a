use vstd::prelude::*;
use vstd::string::*;

verus! {

/// The suffix of `s` strictly after the last occurrence of `c`, or `s`
/// itself when `c` does not occur in it.
pub open spec fn after_last(s: Seq<char>, c: char) -> Seq<char>
    decreases s.len(),
{
    if s.len() == 0 {
        s
    } else if s.last() == c {
        Seq::empty()
    } else {
        after_last(s.drop_last(), c).push(s.last())
    }
}

pub proof fn lemma_after_last_no_occurrence(s: Seq<char>, c: char)
    requires
        forall|i: int| 0 <= i < s.len() ==> s[i] != c,
    ensures
        after_last(s, c) =~= s,
    decreases s.len(),
{
    if s.len() > 0 {
        lemma_after_last_no_occurrence(s.drop_last(), c);
    }
}

pub proof fn lemma_after_last_at(s: Seq<char>, c: char, p: int)
    requires
        0 <= p < s.len(),
        s[p] == c,
        forall|i: int| p < i < s.len() ==> s[i] != c,
    ensures
        after_last(s, c) =~= s.subrange(p + 1, s.len() as int),
    decreases s.len(),
{
    if p == s.len() - 1 {
        assert(s.last() == c);
    } else {
        assert(s.last() != c);
        lemma_after_last_at(s.drop_last(), c, p);
        assert(after_last(s, c) =~= s.subrange(p + 1, s.len() as int));
    }
}

/// The basename of an upload name: the text after its final '/', or the
/// whole name when it holds no '/'.
pub open spec fn basename_of(s: Seq<char>) -> Seq<char> {
    after_last(s, '/')
}

/// A basename carries an extension when some '.' occurs past its first
/// character. A name whose only '.' leads it (a hidden file's, such as
/// ".gitignore") has none, and the parent-directory name ".." is not a
/// file name at all.
pub open spec fn ext_exists(b: Seq<char>) -> bool {
    b != seq!['.', '.'] && exists|i: int| 1 <= i < b.len() && b[i] == '.'
}

/// The extension the service derives from a client-supplied upload name:
/// the characters after the final '.' of the name's basename, when the
/// basename carries an extension at all.
pub open spec fn extension_of(name: Seq<char>) -> Option<Seq<char>> {
    let b = basename_of(name);
    if ext_exists(b) {
        Some(after_last(b, '.'))
    } else {
        None
    }
}

/// Extract the trailing extension of a client-supplied upload name, as
/// `extension_of` defines it. The name's stem is deliberately discarded by
/// the caller, so only the part after the basename's final '.' is returned.
pub fn file_extension(name: &str) -> (r: Option<String>)
    ensures
        r matches Some(e) ==> extension_of(name@) == Some(e@),
        r is None ==> extension_of(name@) is None,
{
    let n = name.unicode_len();

    // Find the last '/' of the name, if any; the basename follows it.
    let mut j: usize = n;
    let mut slash: usize = 0;
    let mut found_slash = false;
    while j > 0 && !found_slash
        invariant
            n == name@.len(),
            j <= n,
            !found_slash ==> forall|i: int| j <= i < n ==> name@[i] != '/',
            found_slash ==> slash < n && name@[slash as int] == '/' && (forall|i: int|
                slash < i < n ==> name@[i] != '/'),
        decreases j + (if found_slash { 0int } else { 1int }),
    {
        if name.get_char(j - 1) == '/' {
            slash = j - 1;
            found_slash = true;
        } else {
            j = j - 1;
        }
    }

    let bstart: usize = if found_slash {
        slash + 1
    } else {
        0
    };
    proof {
        if found_slash {
            lemma_after_last_at(name@, '/', slash as int);
        } else {
            lemma_after_last_no_occurrence(name@, '/');
        }
        assert(basename_of(name@) =~= name@.subrange(bstart as int, n as int));
    }
    let b = name.substring_char(bstart, n);
    assert(b@ == basename_of(name@));

    let blen = b.unicode_len();

    // ".." names the parent directory, never a file: no extension.
    if blen == 2 && b.get_char(0) == '.' && b.get_char(1) == '.' {
        proof {
            assert(b@ =~= seq!['.', '.']);
        }
        return None;
    }
    assert(b@ != seq!['.', '.']);

    // Find the last '.' of the basename past its first character.
    let mut k: usize = blen;
    let mut dot: usize = 0;
    let mut found_dot = false;
    while k > 1 && !found_dot
        invariant
            blen == b@.len(),
            k <= blen,
            !found_dot ==> forall|i: int| k <= i < blen ==> b@[i] != '.',
            found_dot ==> 1 <= dot < blen && b@[dot as int] == '.' && (forall|i: int|
                dot < i < blen ==> b@[i] != '.'),
        decreases k + (if found_dot { 0int } else { 1int }),
    {
        if b.get_char(k - 1) == '.' {
            dot = k - 1;
            found_dot = true;
        } else {
            k = k - 1;
        }
    }

    if found_dot {
        proof {
            lemma_after_last_at(b@, '.', dot as int);
        }
        let e = b.substring_char(dot + 1, blen);
        Some(String::from_str(e))
    } else {
        proof {
            assert(forall|i: int| 1 <= i < blen ==> b@[i] != '.');
        }
        None
    }
}

/// The view of an optional extension string.
pub open spec fn opt_view(o: Option<String>) -> Option<Seq<char>> {
    match o {
        Some(s) => Some(s@),
        None => None,
    }
}

/// The on-disk filename of a paste: the canonical id, with the upload
/// name's extension appended after a '.' when there is one.
pub open spec fn stored_filename_spec(id: Seq<char>, ext: Option<Seq<char>>) -> Seq<char> {
    match ext {
        Some(e) => id + seq!['.'] + e,
        None => id,
    }
}

/// Form the on-disk filename `<id>` or `<id>.<ext>`.
pub fn stored_filename(id: &str, ext: &Option<String>) -> (r: String)
    ensures
        r@ == stored_filename_spec(id@, opt_view(*ext)),
{
    match ext {
        Some(e) => {
            let mut r = String::from_str(id);
            r.append(".");
            r.append(e.as_str());
            proof {
                reveal_strlit(".");
                assert(r@ =~= id@ + seq!['.'] + e@);
            }
            r
        },
        None => String::from_str(id),
    }
}

/// The public URL a stored paste is served at.
pub open spec fn paste_url_spec(base: Seq<char>, filename: Seq<char>) -> Seq<char> {
    base + ("/paste/")@ + filename
}

/// Form the URL `<base_url>/paste/<filename>` returned to the client.
pub fn paste_url(base_url: &str, filename: &str) -> (r: String)
    ensures
        r@ == paste_url_spec(base_url@, filename@),
{
    let mut r = String::from_str(base_url);
    r.append("/paste/");
    r.append(filename);
    r
}

/// A lowercase hexadecimal digit.
pub open spec fn is_lower_hex(c: char) -> bool {
    (48 <= c as u32 && c as u32 <= 57) || (97 <= c as u32 && c as u32 <= 102)
}

/// The canonical rendering of a UUID: 36 characters, hyphens at positions
/// 8, 13, 18 and 23, lowercase hexadecimal digits everywhere else.
pub open spec fn wf_uuid(s: Seq<char>) -> bool {
    &&& s.len() == 36
    &&& (forall|i: int|
        0 <= i < 36 && (i == 8 || i == 13 || i == 18 || i == 23) ==> #[trigger] s[i] == '-')
    &&& (forall|i: int|
        0 <= i < 36 && !(i == 8 || i == 13 || i == 18 || i == 23) ==> is_lower_hex(
            #[trigger] s[i],
        ))
}

/// The stored filename begins with the canonical id it was formed from;
/// when the upload name carried extension `e` it ends with '.' followed by
/// `e`, and otherwise it holds no '.' at all.
pub proof fn lemma_stored_filename_shape(id: Seq<char>, ext: Option<Seq<char>>)
    requires
        wf_uuid(id),
    ensures
        stored_filename_spec(id, ext).len() >= 36,
        stored_filename_spec(id, ext).subrange(0, 36) =~= id,
        ext matches Some(e) ==> stored_filename_spec(id, ext).len() == 37 + e.len()
            && stored_filename_spec(id, ext).subrange(
            36,
            stored_filename_spec(id, ext).len() as int,
        ) =~= seq!['.'] + e,
        ext is None ==> forall|i: int|
            0 <= i < stored_filename_spec(id, ext).len() ==> stored_filename_spec(id, ext)[i]
                != '.',
{
    let s = stored_filename_spec(id, ext);
    match ext {
        Some(e) => {
            assert(s.subrange(0, 36) =~= id);
            assert(s.subrange(36, s.len() as int) =~= seq!['.'] + e);
        },
        None => {
            assert forall|i: int| 0 <= i < s.len() implies s[i] != '.' by {
                if i == 8 || i == 13 || i == 18 || i == 23 {
                    assert(s[i] == '-');
                } else {
                    assert(is_lower_hex(s[i]));
                }
            }
        },
    }
}

/// Two stored filenames agree only when the ids they were formed from do:
/// the id is always the filename's first 36 characters.
pub proof fn lemma_stored_filename_injective(
    id1: Seq<char>,
    e1: Option<Seq<char>>,
    id2: Seq<char>,
    e2: Option<Seq<char>>,
)
    requires
        wf_uuid(id1),
        wf_uuid(id2),
        stored_filename_spec(id1, e1) == stored_filename_spec(id2, e2),
    ensures
        id1 == id2,
{
    lemma_stored_filename_shape(id1, e1);
    lemma_stored_filename_shape(id2, e2);
    assert(id1 =~= id2);
}

} // verus!
