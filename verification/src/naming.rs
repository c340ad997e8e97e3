//! Names the orchestrator derives: executable names, staging directories,
//! and the confirmation answers that count as "yes".

use vstd::prelude::*;

verus! {

/// The whitespace characters stripped from a marker file or an answer:
/// the Unicode White_Space class, the same set `char::is_whitespace`
/// recognises.
pub open spec fn is_space_char(c: char) -> bool {
    ||| c == '\t'
    ||| c == '\n'
    ||| c == '\u{000B}'
    ||| c == '\u{000C}'
    ||| c == '\r'
    ||| c == ' '
    ||| c == '\u{0085}'
    ||| c == '\u{00A0}'
    ||| c == '\u{1680}'
    ||| c == '\u{2000}'
    ||| c == '\u{2001}'
    ||| c == '\u{2002}'
    ||| c == '\u{2003}'
    ||| c == '\u{2004}'
    ||| c == '\u{2005}'
    ||| c == '\u{2006}'
    ||| c == '\u{2007}'
    ||| c == '\u{2008}'
    ||| c == '\u{2009}'
    ||| c == '\u{200A}'
    ||| c == '\u{2028}'
    ||| c == '\u{2029}'
    ||| c == '\u{202F}'
    ||| c == '\u{205F}'
    ||| c == '\u{3000}'
}

/// `s` with every leading whitespace character removed.
pub open spec fn trim_front(s: Seq<char>) -> Seq<char>
    decreases s.len(),
{
    if s.len() > 0 && is_space_char(s[0]) {
        trim_front(s.drop_first())
    } else {
        s
    }
}

/// `s` with every trailing whitespace character removed.
pub open spec fn trim_back(s: Seq<char>) -> Seq<char>
    decreases s.len(),
{
    if s.len() > 0 && is_space_char(s.last()) {
        trim_back(s.drop_last())
    } else {
        s
    }
}

/// `s` with whitespace removed from both ends.
pub open spec fn trimmed(s: Seq<char>) -> Seq<char> {
    trim_back(trim_front(s))
}

proof fn lemma_trim_front_is_suffix(s: Seq<char>, i: int)
    requires
        0 <= i <= s.len(),
        forall|k: int| 0 <= k < i ==> is_space_char(s[k]),
        i < s.len() ==> !is_space_char(s[i]),
    ensures
        trim_front(s) == s.subrange(i, s.len() as int),
    decreases i,
{
    if i == 0 {
        assert(s.subrange(0, s.len() as int) =~= s);
    } else {
        assert(is_space_char(s[0]));
        let t = s.drop_first();
        lemma_trim_front_is_suffix(t, i - 1);
        assert(t.subrange(i - 1, t.len() as int) =~= s.subrange(i, s.len() as int));
    }
}

proof fn lemma_trim_back_is_prefix(s: Seq<char>, j: int)
    requires
        0 <= j <= s.len(),
        forall|k: int| j <= k < s.len() ==> is_space_char(s[k]),
        j > 0 ==> !is_space_char(s[j - 1]),
    ensures
        trim_back(s) == s.subrange(0, j),
    decreases s.len(),
{
    if j == s.len() {
        if s.len() == 0 {
            assert(s.subrange(0, 0) =~= s);
        } else {
            assert(!is_space_char(s.last()));
            assert(s.subrange(0, j) =~= s);
        }
    } else {
        assert(is_space_char(s.last()));
        let t = s.drop_last();
        lemma_trim_back_is_prefix(t, j);
        assert(t.subrange(0, j) =~= s.subrange(0, j));
    }
}

fn is_space(c: char) -> (r: bool)
    ensures
        r == is_space_char(c),
{
    c == '\t' || c == '\n' || c == '\u{000B}' || c == '\u{000C}' || c == '\r' || c == ' '
        || c == '\u{0085}' || c == '\u{00A0}' || c == '\u{1680}' || c == '\u{2000}'
        || c == '\u{2001}' || c == '\u{2002}' || c == '\u{2003}' || c == '\u{2004}'
        || c == '\u{2005}' || c == '\u{2006}' || c == '\u{2007}' || c == '\u{2008}'
        || c == '\u{2009}' || c == '\u{200A}' || c == '\u{2028}' || c == '\u{2029}'
        || c == '\u{202F}' || c == '\u{205F}' || c == '\u{3000}'
}

/// Strips whitespace from both ends of `s`.
pub fn trim_str(s: &str) -> (r: String)
    ensures
        r@ == trimmed(s@),
{
    let len = s.unicode_len();
    let mut i: usize = 0;
    while i < len && is_space(s.get_char(i))
        invariant
            0 <= i <= len,
            len == s@.len(),
            forall|k: int| 0 <= k < i ==> is_space_char(s@[k]),
        decreases len - i,
    {
        i = i + 1;
    }
    let mut j: usize = len;
    while j > i && is_space(s.get_char(j - 1))
        invariant
            i <= j <= len,
            len == s@.len(),
            forall|k: int| 0 <= k < i ==> is_space_char(s@[k]),
            i < len ==> !is_space_char(s@[i as int]),
            forall|k: int| j <= k < len ==> is_space_char(s@[k]),
        decreases j,
    {
        j = j - 1;
    }
    proof {
        lemma_trim_front_is_suffix(s@, i as int);
        let t = s@.subrange(i as int, len as int);
        lemma_trim_back_is_prefix(t, j - i);
        assert(t.subrange(0, j - i) =~= s@.subrange(i as int, j as int));
    }
    let piece = s.substring_char(i, j);
    piece.to_owned()
}

/// The executable name for a cloned source tree: the trimmed contents of
/// the optional marker file when one is present, otherwise the package
/// name itself.
pub open spec fn program_name_of(marker: Option<Seq<char>>, program: Seq<char>) -> Seq<char> {
    match marker {
        Option::Some(m) => trimmed(m),
        Option::None => program,
    }
}

/// Resolves the executable name from the optional marker-file contents.
pub fn get_program_name(marker: Option<String>, program: &str) -> (r: String)
    ensures
        r@ == program_name_of(
            match marker {
                Option::Some(m) => Option::Some(m@),
                Option::None => Option::None,
            },
            program@,
        ),
{
    match marker {
        Option::Some(m) => trim_str(m.as_str()),
        Option::None => program.to_owned(),
    }
}

/// The staging directory used for one acquisition, relative to the tool's
/// home: a fixed directory for the root package, a per-package one for a
/// dependency so that siblings never clobber each other.
pub open spec fn staging_dir_of(package: Seq<char>, is_root: bool) -> Seq<char> {
    if is_root {
        "build"@
    } else {
        "build/"@ + package
    }
}

/// Builds the staging directory name for one package.
pub fn staging_dir_name(package: &str, is_root: bool) -> (r: String)
    ensures
        r@ == staging_dir_of(package@, is_root),
{
    if is_root {
        "build".to_owned()
    } else {
        let prefix: String = "build/".to_owned();
        prefix.concat(package)
    }
}

/// Two distinct dependency names get distinct staging directories.
pub proof fn lemma_staging_dirs_distinct(n1: Seq<char>, n2: Seq<char>)
    requires
        n1 != n2,
    ensures
        staging_dir_of(n1, false) != staging_dir_of(n2, false),
{
    let pre = "build/"@;
    if pre + n1 == pre + n2 {
        assert((pre + n1).len() == pre.len() + n1.len());
        assert((pre + n2).len() == pre.len() + n2.len());
        assert(n1.len() == n2.len());
        assert forall|i: int| 0 <= i < n1.len() implies n1[i] == n2[i] by {
            assert((pre + n1)[pre.len() + i] == n1[i]);
            assert((pre + n2)[pre.len() + i] == n2[i]);
        }
        assert(n1 =~= n2);
    }
}

/// The root staging directory is distinct from every dependency's.
pub proof fn lemma_root_staging_distinct(package: Seq<char>)
    ensures
        staging_dir_of(package, false) != staging_dir_of(Seq::empty(), true),
{
    reveal_strlit("build");
    reveal_strlit("build/");
    assert(staging_dir_of(package, false).len() >= 6);
    assert(staging_dir_of(Seq::empty(), true).len() == 5);
}

/// A confirmation answer that counts as "yes": empty, `y` or `yes`, after
/// trimming.
pub open spec fn affirmative(answer: Seq<char>) -> bool {
    ||| trimmed(answer) == ""@
    ||| trimmed(answer) == "y"@
    ||| trimmed(answer) == "yes"@
}

/// Decides whether a confirmation answer accepts the installation.
pub fn is_affirmative(answer: &str) -> (r: bool)
    ensures
        r == affirmative(answer@),
{
    let t = trim_str(answer);
    let empty: String = "".to_owned();
    let y: String = "y".to_owned();
    let yes: String = "yes".to_owned();
    t == empty || t == y || t == yes
}

} // verus!
