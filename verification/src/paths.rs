//! Derivation of a job's output path from its input path and the output
//! directory: take the input's file name, replace its extension with
//! `tiff`, and join the result onto the directory. Paths are modelled as
//! their character sequences, with `/` as the separator.

use vstd::prelude::*;

verus! {

/// `s` with trailing separators and trailing `.` components removed: a
/// final `.` that stands alone after a separator (or as the whole path)
/// names no file, so `a/.` and `a/./` both end in the component `a`.
pub open spec fn trim_dots_and_seps(s: Seq<char>) -> Seq<char>
    decreases s.len(),
{
    if s.len() == 0 {
        s
    } else if s.last() == '/' {
        trim_dots_and_seps(s.drop_last())
    } else if s.last() == '.' && (s.len() == 1 || s[s.len() - 2] == '/') {
        trim_dots_and_seps(s.drop_last())
    } else {
        s
    }
}

/// The suffix of `s` after its last separator (all of `s` when it has
/// none).
pub open spec fn after_last_sep(s: Seq<char>) -> Seq<char>
    decreases s.len(),
{
    if s.len() == 0 {
        s
    } else if s.last() == '/' {
        Seq::empty()
    } else {
        after_last_sep(s.drop_last()).push(s.last())
    }
}

/// The file-name component of a path: what follows the last separator,
/// ignoring trailing separators and trailing `.` components; absent
/// when what remains is empty or is the parent component `..`.
pub open spec fn file_name_of(path: Seq<char>) -> Option<Seq<char>> {
    let name = after_last_sep(trim_dots_and_seps(path));
    if name.len() == 0 || name =~= seq!['.', '.'] {
        None
    } else {
        Some(name)
    }
}

/// The position of the last `.` in `name`, or `-1` when there is none.
pub open spec fn last_dot_index(name: Seq<char>) -> int
    decreases name.len(),
{
    if name.len() == 0 {
        -1
    } else if name.last() == '.' {
        name.len() - 1
    } else {
        last_dot_index(name.drop_last())
    }
}

/// The file name without its extension: everything before the last `.`,
/// except that a `.` in the leading position begins no extension (so a
/// hidden file's name is kept whole).
pub open spec fn stem_of(name: Seq<char>) -> Seq<char> {
    let i = last_dot_index(name);
    if i > 0 {
        name.subrange(0, i)
    } else {
        name
    }
}

/// `dir` and `name` joined with a separator (none added when `dir` is
/// empty or already ends with one).
pub open spec fn joined(dir: Seq<char>, name: Seq<char>) -> Seq<char> {
    if dir.len() == 0 {
        name
    } else if dir.last() == '/' {
        dir + name
    } else {
        dir + seq!['/'] + name
    }
}

/// The output path for `input` under `dir`: the input's file name with
/// its extension replaced by `tiff`, joined onto `dir`; absent when
/// `input` has no file-name component.
pub open spec fn derived_output_path(dir: Seq<char>, input: Seq<char>) -> Option<Seq<char>> {
    match file_name_of(input) {
        None => None,
        Some(name) => Some(joined(dir, stem_of(name) + ".tiff"@)),
    }
}

/// The file-name component of `path`, exactly as `file_name_of`
/// describes it.
pub fn file_name(path: &str) -> (r: Option<String>)
    ensures
        match r {
            Some(name) => file_name_of(path@) == Some(name@),
            None => file_name_of(path@) is None,
        },
{
    let n = path.unicode_len();
    let mut end = n;
    proof {
        assert(path@.subrange(0, n as int) =~= path@);
    }
    while end > 0 && (path.get_char(end - 1) == '/' || (path.get_char(end - 1) == '.' && (end == 1
        || path.get_char(end - 2) == '/')))
        invariant
            0 <= end <= n,
            n == path@.len(),
            trim_dots_and_seps(path@) == trim_dots_and_seps(path@.subrange(0, end as int)),
        decreases end,
    {
        proof {
            assert(path@.subrange(0, end as int).drop_last() =~= path@.subrange(0, end - 1));
        }
        end = end - 1;
    }
    proof {
        assert(trim_dots_and_seps(path@) == path@.subrange(0, end as int));
    }
    let mut start = end;
    proof {
        assert(path@.subrange(end as int, end as int) =~= Seq::<char>::empty());
        assert(after_last_sep(path@.subrange(0, end as int)) == after_last_sep(
            path@.subrange(0, start as int),
        ) + path@.subrange(start as int, end as int));
    }
    while start > 0 && path.get_char(start - 1) != '/'
        invariant
            0 <= start <= end <= n,
            n == path@.len(),
            trim_dots_and_seps(path@) == path@.subrange(0, end as int),
            after_last_sep(path@.subrange(0, end as int)) == after_last_sep(
                path@.subrange(0, start as int),
            ) + path@.subrange(start as int, end as int),
        decreases start,
    {
        proof {
            assert(path@.subrange(0, start as int).drop_last() =~= path@.subrange(0, start - 1));
            assert(after_last_sep(path@.subrange(0, start - 1)).push(path@[start - 1])
                + path@.subrange(start as int, end as int) =~= after_last_sep(
                path@.subrange(0, start - 1),
            ) + path@.subrange(start - 1, end as int));
        }
        start = start - 1;
    }
    proof {
        if start == 0 {
            assert(Seq::<char>::empty() + path@.subrange(0, end as int) =~= path@.subrange(
                0,
                end as int,
            ));
        }
        assert(after_last_sep(trim_dots_and_seps(path@)) == path@.subrange(
            start as int,
            end as int,
        ));
    }
    let name_str = path.substring_char(start, end);
    let len = end - start;
    if len == 0 {
        return None;
    }
    if len == 2 && name_str.get_char(0) == '.' && name_str.get_char(1) == '.' {
        proof {
            assert(name_str@ =~= seq!['.', '.']);
        }
        return None;
    }
    proof {
        if name_str@ =~= seq!['.', '.'] {
            assert(name_str@[0] == '.' && name_str@[1] == '.');
            assert(false);
        }
    }
    Some(String::from_str(name_str))
}

/// The stem of a file name, exactly as `stem_of` describes it.
pub fn stem(name: &str) -> (r: &str)
    ensures
        r@ == stem_of(name@),
{
    let n = name.unicode_len();
    let mut j = n;
    proof {
        assert(name@.subrange(0, n as int) =~= name@);
    }
    while j > 0 && name.get_char(j - 1) != '.'
        invariant
            0 <= j <= n,
            n == name@.len(),
            last_dot_index(name@) == last_dot_index(name@.subrange(0, j as int)),
        decreases j,
    {
        proof {
            assert(name@.subrange(0, j as int).drop_last() =~= name@.subrange(0, j - 1));
        }
        j = j - 1;
    }
    if j >= 2 {
        proof {
            assert(last_dot_index(name@) == j - 1);
        }
        name.substring_char(0, j - 1)
    } else {
        proof {
            assert(name@.subrange(0, n as int) =~= name@);
        }
        name
    }
}

/// `dir` and `name` joined, exactly as `joined` describes it.
pub fn join_path(dir: &str, name: &str) -> (r: String)
    ensures
        r@ == joined(dir@, name@),
{
    let dn = dir.unicode_len();
    if dn == 0 {
        return String::from_str(name);
    }
    let mut r = String::from_str(dir);
    if dir.get_char(dn - 1) != '/' {
        r.append("/");
        proof {
            reveal_strlit("/");
            assert("/"@ =~= seq!['/']);
        }
    }
    r.append(name);
    proof {
        assert(r@ =~= joined(dir@, name@));
    }
    r
}

/// The output path for `input` under `output_dir`, exactly as
/// `derived_output_path` describes it; `None` when `input` has no
/// file-name component.
pub fn derive_output_path(output_dir: &str, input: &str) -> (r: Option<String>)
    ensures
        match r {
            Some(p) => derived_output_path(output_dir@, input@) == Some(p@),
            None => derived_output_path(output_dir@, input@) is None,
        },
{
    match file_name(input) {
        None => None,
        Some(name) => {
            let st = stem(name.as_str());
            let mut out_name = String::from_str(st);
            out_name.append(".tiff");
            proof {
                reveal_strlit(".tiff");
            }
            let p = join_path(output_dir, out_name.as_str());
            Some(p)
        },
    }
}

} // verus!
