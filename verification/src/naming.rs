//! Names of backup files: when a file name is taken in the backup folder, a number suffix
//! goes between the stem and the extension.

use vstd::prelude::*;
use crate::text::{
    chars_of, decimal, decimal_string, lemma_decimal_digits, lemma_decimal_injective, push_char,
    string_of_range,
};

verus! {

/// The index of the last '.' among the first `n` characters of `name`, or -1 if there is none.
pub open spec fn last_dot_before(name: Seq<char>, n: int) -> int
    decreases n,
{
    if n <= 0 {
        -1
    } else if name[n - 1] == '.' {
        n - 1
    } else {
        last_dot_before(name, n - 1)
    }
}

/// The index of the last '.' in `name`, or -1 if there is none.
pub open spec fn last_dot(name: Seq<char>) -> int {
    last_dot_before(name, name.len() as int)
}

/// A file name split into stem and extension as `std::path::Path::file_stem` and
/// `Path::extension` split it: at the last '.', unless there is none, the name is "..", or the
/// only '.' begins the name, in which case the whole name is the stem and there is no
/// extension.
pub open spec fn split_file_name_spec(name: Seq<char>) -> (Seq<char>, Option<Seq<char>>) {
    let d = last_dot(name);
    if name == seq!['.', '.'] || d <= 0 {
        (name, None)
    } else {
        (name.subrange(0, d), Some(name.subrange(d + 1, name.len() as int)))
    }
}

/// The `n`th name tried for a backup of a file called `name`: the name itself first, then
/// `stem_n.extension` (or `stem_n` without an extension) for n = 1, 2, ...
pub open spec fn backup_candidate_spec(name: Seq<char>, n: nat) -> Seq<char> {
    if n == 0 {
        name
    } else {
        let (stem, ext) = split_file_name_spec(name);
        match ext {
            Some(e) => stem + seq!['_'] + decimal(n) + seq!['.'] + e,
            None => stem + seq!['_'] + decimal(n),
        }
    }
}

proof fn lemma_last_dot_before(name: Seq<char>, n: int)
    requires
        0 <= n <= name.len(),
    ensures
        -1 <= last_dot_before(name, n) < n,
        last_dot_before(name, n) >= 0 ==> name[last_dot_before(name, n)] == '.',
        forall|j: int| last_dot_before(name, n) < j < n ==> name[j] != '.',
    decreases n,
{
    if n > 0 && name[n - 1] != '.' {
        lemma_last_dot_before(name, n - 1);
    }
}

proof fn lemma_last_dot_is(name: Seq<char>, n: int, k: int)
    requires
        n <= name.len(),
        -1 <= k < n,
        k >= 0 ==> name[k] == '.',
        forall|j: int| k < j < n ==> name[j] != '.',
    ensures
        last_dot_before(name, n) == k,
    decreases n,
{
    if n > 0 && k < n - 1 {
        lemma_last_dot_is(name, n - 1, k);
    }
}

/// The stem and extension of a file name, split as `Path::file_stem` and `Path::extension` do.
pub fn split_file_name(name: &str) -> (parts: (String, Option<String>))
    ensures
        parts.0@ == split_file_name_spec(name@).0,
        match parts.1 {
            Some(e) => split_file_name_spec(name@).1 == Some(e@),
            None => split_file_name_spec(name@).1 is None,
        },
{
    let chars = chars_of(name);
    let n = chars.len();
    let mut i = n;
    while i > 0 && chars[i - 1] != '.'
        invariant
            i <= n,
            n == chars@.len(),
            last_dot(chars@) == last_dot_before(chars@, i as int),
        decreases i,
    {
        i = i - 1;
    }
    proof {
        lemma_last_dot_before(chars@, n as int);
    }
    let is_dot_dot = n == 2 && chars[0] == '.' && chars[1] == '.';
    assert(is_dot_dot == (chars@ == seq!['.', '.'])) by {
        if chars@ == seq!['.', '.'] {
            assert(chars@[0] == '.' && chars@[1] == '.');
        }
        if is_dot_dot {
            assert(chars@ =~= seq!['.', '.']);
        }
    }
    if is_dot_dot || i <= 1 {
        (string_of_range(&chars, 0, n), None)
    } else {
        let dot = i - 1;
        (string_of_range(&chars, 0, dot), Some(string_of_range(&chars, dot + 1, n)))
    }
}

/// The `n`th name to try for the backup of a file called `file_name`: the name itself for 0,
/// and for n >= 1 the stem, '_', the number and, where the name has one, '.' and the
/// extension.
pub fn backup_candidate(file_name: &str, n: u64) -> (candidate: String)
    ensures
        candidate@ == backup_candidate_spec(file_name@, n as nat),
{
    if n == 0 {
        return String::from_str(file_name);
    }
    let (stem, ext) = split_file_name(file_name);
    let mut candidate = stem;
    push_char(&mut candidate, '_');
    let number = decimal_string(n);
    candidate = candidate.concat(number.as_str());
    match ext {
        Some(e) => {
            push_char(&mut candidate, '.');
            candidate = candidate.concat(e.as_str());
        },
        None => {},
    }
    candidate
}

/// Finds the name for a backup of `file_name`: tries `backup_candidate(file_name, n)` for
/// n = `from`, `from` + 1, ... and takes the first that `is_taken` says is free. Returns the
/// number and the name; every candidate tried before it was found taken. `None` only if every
/// number up to `u64::MAX` was taken.
pub fn first_free_backup_name<F: Fn(&String) -> bool>(file_name: &str, from: u64, is_taken: F) -> (res:
    Option<(u64, String)>)
    requires
        forall|s: &String| is_taken.requires((s,)),
    ensures
        match res {
            Some((k, name)) => {
                &&& from <= k
                &&& name@ == backup_candidate_spec(file_name@, k as nat)
                &&& is_taken.ensures((&name,), false)
                &&& forall|m: nat|
                    from <= m < k ==> exists|c: String|
                        c@ == #[trigger] backup_candidate_spec(file_name@, m) && is_taken.ensures(
                            (&c,),
                            true,
                        )
            },
            None => forall|m: nat|
                from <= m <= u64::MAX ==> exists|c: String|
                    c@ == #[trigger] backup_candidate_spec(file_name@, m) && is_taken.ensures(
                        (&c,),
                        true,
                    ),
        },
{
    let mut n = from;
    loop
        invariant
            from <= n,
            forall|s: &String| is_taken.requires((s,)),
            forall|m: nat|
                from <= m < n ==> exists|c: String|
                    c@ == #[trigger] backup_candidate_spec(file_name@, m) && is_taken.ensures(
                        (&c,),
                        true,
                    ),
        decreases u64::MAX - n,
    {
        let candidate = backup_candidate(file_name, n);
        if !is_taken(&candidate) {
            return Some((n, candidate));
        }
        assert(candidate@ == backup_candidate_spec(file_name@, n as nat));
        if n == u64::MAX {
            return None;
        }
        n = n + 1;
    }
}

proof fn lemma_split_lengths(name: Seq<char>)
    ensures
        split_file_name_spec(name).1 matches Some(e) ==> name.len() == split_file_name_spec(
            name,
        ).0.len() + 1 + e.len(),
        split_file_name_spec(name).1 is None ==> split_file_name_spec(name).0 == name,
{
    lemma_last_dot_before(name, name.len() as int);
}

/// A numbered backup name never equals the file's own name.
pub proof fn law_candidate_differs_from_name(name: Seq<char>, n: nat)
    requires
        n >= 1,
    ensures
        backup_candidate_spec(name, n) != name,
{
    lemma_split_lengths(name);
    lemma_decimal_digits(n);
}

/// Numbered backup names for different numbers differ, so trying numbers one after another
/// never tries a name twice.
pub proof fn law_candidates_distinct(name: Seq<char>, n: nat, m: nat)
    requires
        n >= 1,
        m >= 1,
        n != m,
    ensures
        backup_candidate_spec(name, n) != backup_candidate_spec(name, m),
{
    let (stem, ext) = split_file_name_spec(name);
    let cn = backup_candidate_spec(name, n);
    let cm = backup_candidate_spec(name, m);
    lemma_decimal_digits(n);
    lemma_decimal_digits(m);
    if cn == cm {
        let lo: int = stem.len() + 1int;
        if decimal(n).len() == decimal(m).len() {
            assert(cn.subrange(lo, lo + decimal(n).len()) =~= decimal(n));
            assert(cm.subrange(lo, lo + decimal(m).len()) =~= decimal(m));
            lemma_decimal_injective(n, m);
        } else {
            assert(cn.len() != cm.len());
        }
    }
}

/// A numbered backup name keeps the file's extension: split again, it gives the stem with
/// '_' and the number appended, and the file's extension. This fails only for the name
/// "..", which no file has.
pub proof fn law_candidate_keeps_extension(name: Seq<char>, n: nat)
    requires
        n >= 1,
        name != seq!['.', '.'],
    ensures
        split_file_name_spec(backup_candidate_spec(name, n)) == (
            split_file_name_spec(name).0 + seq!['_'] + decimal(n),
            split_file_name_spec(name).1,
        ),
{
    let (stem, ext) = split_file_name_spec(name);
    let c = backup_candidate_spec(name, n);
    let base = stem + seq!['_'] + decimal(n);
    lemma_decimal_digits(n);
    lemma_last_dot_before(name, name.len() as int);
    let d = last_dot(name);
    match ext {
        Some(e) => {
            assert(c == base + seq!['.'] + e);
            assert forall|j: int| base.len() < j < c.len() implies c[j] != '.' by {
                assert(c[j] == name[d + 1 + (j - base.len() - 1)]);
            }
            lemma_last_dot_is(c, c.len() as int, base.len() as int);
            assert(c.subrange(0, base.len() as int) =~= base);
            assert(c.subrange(base.len() + 1int, c.len() as int) =~= e);
            assert(c != seq!['.', '.']) by {
                assert(c.len() >= 3);
            }
        },
        None => {
            assert(stem == name);
            assert(c == base);
            let k = if d == 0 { 0int } else { -1int };
            assert forall|j: int| k < j < c.len() implies c[j] != '.' by {
                if j < name.len() {
                    assert(c[j] == name[j]);
                } else if j > name.len() {
                    assert(c[j] == decimal(n)[j - name.len() - 1]);
                }
            }
            lemma_last_dot_is(c, c.len() as int, k);
            assert(c != seq!['.', '.']) by {
                if c == seq!['.', '.'] {
                    assert(c[c.len() - 1] == decimal(n)[decimal(n).len() - 1]);
                }
            }
        },
    }
}

} // verus!
