//! Character-level text helpers: ASCII case folding for the normalized join
//! key, slug derivation for custom game ids, and path string manipulation
//! (parent directory, joining a component onto a base directory).

use vstd::prelude::*;

verus! {

/// Case-folds one character: ASCII upper case maps to lower case, everything
/// else is unchanged.
pub open spec fn lower_char(c: char) -> char {
    if 65 <= c as u32 && c as u32 <= 90 {
        (((c as u32 + 32) as u8) as char)
    } else {
        c
    }
}

/// One character of a slug: a space becomes a dash, everything else is
/// case-folded.
pub open spec fn slug_char(c: char) -> char {
    if c == ' ' {
        '-'
    } else {
        lower_char(c)
    }
}

/// The normalized (case-folded) form of a name, used as the join key between
/// catalog entries and probe evidence.
pub open spec fn norm_seq(s: Seq<char>) -> Seq<char> {
    s.map_values(|c: char| lower_char(c))
}

/// The slug of a free-text name: case-folded, with spaces replaced by dashes.
pub open spec fn slug_seq(s: Seq<char>) -> Seq<char> {
    s.map_values(|c: char| slug_char(c))
}

fn lower_char_exec(c: char) -> (r: char)
    ensures
        r == lower_char(c),
{
    let u: u32 = c as u32;
    if 65 <= u && u <= 90 {
        ((u + 32) as u8) as char
    } else {
        c
    }
}

fn slug_char_exec(c: char) -> (r: char)
    ensures
        r == slug_char(c),
{
    if c == ' ' {
        '-'
    } else {
        lower_char_exec(c)
    }
}

/// Relies on String::push, which appends the given character to the string.
#[verifier::external_body]
fn push_char(s: &mut String, c: char)
    ensures
        final(s)@ == old(s)@.push(c),
{
    s.push(c)
}

/// Case-folds a name into the normalized join key.
pub fn normalize_name(s: &str) -> (r: String)
    ensures
        r@ == norm_seq(s@),
{
    let n = s.unicode_len();
    let mut r = String::new();
    let mut i: usize = 0;
    while i < n
        invariant
            i <= n,
            n == s@.len(),
            r@ == norm_seq(s@.subrange(0, i as int)),
        decreases n - i,
    {
        let c = s.get_char(i);
        let l = lower_char_exec(c);
        push_char(&mut r, l);
        proof {
            assert(s@.subrange(0, i + 1) =~= s@.subrange(0, i as int).push(s@[i as int]));
            assert(r@ =~= norm_seq(s@.subrange(0, i + 1)));
        }
        i = i + 1;
    }
    proof {
        assert(s@.subrange(0, n as int) =~= s@);
    }
    r
}

/// Derives the slug of a name: case-folded, spaces replaced by dashes.
pub fn slugify(s: &str) -> (r: String)
    ensures
        r@ == slug_seq(s@),
{
    let n = s.unicode_len();
    let mut r = String::new();
    let mut i: usize = 0;
    while i < n
        invariant
            i <= n,
            n == s@.len(),
            r@ == slug_seq(s@.subrange(0, i as int)),
        decreases n - i,
    {
        let c = s.get_char(i);
        let l = slug_char_exec(c);
        push_char(&mut r, l);
        proof {
            assert(s@.subrange(0, i + 1) =~= s@.subrange(0, i as int).push(s@[i as int]));
            assert(r@ =~= slug_seq(s@.subrange(0, i + 1)));
        }
        i = i + 1;
    }
    proof {
        assert(s@.subrange(0, n as int) =~= s@);
    }
    r
}

/// A path separator: either the forward or the backward slash.
pub open spec fn is_sep(c: char) -> bool {
    c == '/' || c == '\\'
}

/// The largest index below `n` holding a separator, or -1 if there is none.
pub open spec fn last_sep_before(s: Seq<char>, n: int) -> int
    decreases n,
{
    if n <= 0 {
        -1
    } else if is_sep(s[n - 1]) {
        n - 1
    } else {
        last_sep_before(s, n - 1)
    }
}

/// The parent directory of a path string: the prefix up to (excluding) the
/// last separator; the separator itself when the last separator is the first
/// character; nothing when the path holds no separator at all.
pub open spec fn parent_of(s: Seq<char>) -> Option<Seq<char>> {
    let k = last_sep_before(s, s.len() as int);
    if k < 0 {
        None
    } else if k == 0 {
        Some(s.subrange(0, 1))
    } else {
        Some(s.subrange(0, k))
    }
}

/// Computes the parent directory of a path string, if it has one.
pub fn parent_dir(s: &str) -> (r: Option<String>)
    ensures
        r is Some <==> parent_of(s@) is Some,
        r is Some ==> r.unwrap()@ == parent_of(s@).unwrap(),
{
    let n = s.unicode_len();
    let mut i: usize = n;
    while i > 0
        invariant
            i <= n,
            n == s@.len(),
            last_sep_before(s@, n as int) == last_sep_before(s@, i as int),
        decreases i,
    {
        let c = s.get_char(i - 1);
        if c == '/' || c == '\\' {
            let k: usize = i - 1;
            let p = if k == 0 {
                s.substring_char(0, 1)
            } else {
                s.substring_char(0, k)
            };
            return Some(String::from_str(p));
        }
        i = i - 1;
    }
    None
}

/// Whether the sequence holds the given character somewhere.
pub open spec fn contains_char(s: Seq<char>, c: char) -> bool {
    exists|i: int| 0 <= i < s.len() && s[i] == c
}

/// The separator used when joining onto this base: a backslash when the base
/// already holds one, a forward slash otherwise.
pub open spec fn sep_of(base: Seq<char>) -> char {
    if contains_char(base, '\\') {
        '\\'
    } else {
        '/'
    }
}

/// A base directory joined with one path component.
pub open spec fn join_spec(base: Seq<char>, name: Seq<char>) -> Seq<char> {
    base.push(sep_of(base)) + name
}

/// Joins a path component onto a base directory, keeping the base's
/// separator style.
pub fn join_path(base: &str, name: &str) -> (r: String)
    ensures
        r@ == join_spec(base@, name@),
{
    let n = base.unicode_len();
    let mut has_backslash = false;
    let mut i: usize = 0;
    while i < n
        invariant
            i <= n,
            n == base@.len(),
            has_backslash <==> exists|j: int| 0 <= j < i && base@[j] == '\\',
        decreases n - i,
    {
        if base.get_char(i) == '\\' {
            has_backslash = true;
        }
        i = i + 1;
    }
    let sep: &str = if has_backslash {
        "\\"
    } else {
        "/"
    };
    proof {
        reveal_strlit("\\");
        reveal_strlit("/");
        assert(has_backslash <==> contains_char(base@, '\\'));
        assert(sep@ =~= seq![sep_of(base@)]);
    }
    let r = String::from_str(base).concat(sep).concat(name);
    proof {
        assert(base@ + sep@ + name@ =~= join_spec(base@, name@));
    }
    r
}

} // verus!
