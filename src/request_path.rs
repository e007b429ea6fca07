use vstd::prelude::*;

verus! {

/// A request path with every leading `/` removed: the key that a store is asked for.
pub open spec fn trim_slashes(p: Seq<char>) -> Seq<char>
    decreases p.len(),
{
    if p.len() > 0 && p[0] == '/' {
        trim_slashes(p.drop_first())
    } else {
        p
    }
}

/// The name of a site's index document.
pub open spec fn index_name() -> Seq<char> {
    seq!['i', 'n', 'd', 'e', 'x', '.', 'h', 't', 'm', 'l']
}

/// The name of a site's own not-found page.
pub open spec fn not_found_name() -> Seq<char> {
    seq!['4', '0', '4', '.', 'h', 't', 'm', 'l']
}

/// The key of the index document of the directory that a request path names.
pub open spec fn directory_index_key(p: Seq<char>) -> Seq<char> {
    let t = trim_slashes(p);
    if t.len() == 0 {
        index_name()
    } else {
        t + seq!['/'] + index_name()
    }
}

/// Removes every leading `/` of a request path.
pub fn trim_leading_slashes(path: &str) -> (r: String)
    ensures
        r@ == trim_slashes(path@),
{
    let n = path.unicode_len();
    let mut i: usize = 0;
    assert(path@.subrange(0, n as int) =~= path@);
    while i < n && path.get_char(i) == '/'
        invariant
            i <= n,
            n == path@.len(),
            trim_slashes(path@) == trim_slashes(path@.subrange(i as int, n as int)),
        decreases n - i,
    {
        assert(path@.subrange(i as int, n as int).drop_first() =~= path@.subrange(
            i + 1,
            n as int,
        ));
        i = i + 1;
    }
    String::from_str(path.substring_char(i, n))
}

/// The key of the site's index document.
pub fn index_key() -> (r: String)
    ensures
        r@ == index_name(),
{
    let r = String::from_str("index.html");
    proof {
        reveal_strlit("index.html");
        assert(r@ =~= index_name());
    }
    r
}

/// The key of the site's own not-found page.
pub fn not_found_key() -> (r: String)
    ensures
        r@ == not_found_name(),
{
    let r = String::from_str("404.html");
    proof {
        reveal_strlit("404.html");
        assert(r@ =~= not_found_name());
    }
    r
}

/// The key of the index document of the directory that `path` names.
pub fn directory_index(path: &str) -> (r: String)
    ensures
        r@ == directory_index_key(path@),
{
    let t = trim_leading_slashes(path);
    if t.unicode_len() == 0 {
        index_key()
    } else {
        let r = t.concat("/index.html");
        proof {
            reveal_strlit("/index.html");
            assert(r@ =~= trim_slashes(path@) + seq!['/'] + index_name());
        }
        r
    }
}

/// Whether a `..` segment starts at position `i` of a key.
pub open spec fn parent_segment_at(k: Seq<char>, i: int) -> bool {
    &&& 0 <= i
    &&& i + 2 <= k.len()
    &&& k[i] == '.'
    &&& k[i + 1] == '.'
    &&& (i == 0 || k[i - 1] == '/')
    &&& (i + 2 == k.len() || k[i + 2] == '/')
}

/// Whether a key names something under the served root: it is relative and no segment of it
/// is `..`.
pub open spec fn stays_under_root(k: Seq<char>) -> bool {
    &&& !(k.len() > 0 && k[0] == '/')
    &&& forall|i: int| 0 <= i < k.len() ==> !#[trigger] parent_segment_at(k, i)
}

/// Whether a key may be looked up under a served directory; one that would leave it is to be
/// treated as not found.
pub fn is_contained(key: &str) -> (r: bool)
    ensures
        r == stays_under_root(key@),
{
    let n = key.unicode_len();
    if n > 0 && key.get_char(0) == '/' {
        return false;
    }
    let mut i: usize = 0;
    while i < n
        invariant
            i <= n,
            n == key@.len(),
            forall|j: int| 0 <= j < i ==> !#[trigger] parent_segment_at(key@, j),
        decreases n - i,
    {
        if i + 1 < n && key.get_char(i) == '.' && key.get_char(i + 1) == '.' && (i == 0
            || key.get_char(i - 1) == '/') && (n - i == 2 || key.get_char(i + 2) == '/') {
            assert(parent_segment_at(key@, i as int));
            return false;
        }
        i = i + 1;
    }
    true
}

} // verus!
