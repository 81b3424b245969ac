use vstd::prelude::*;
use vstd::string::*;
use crate::backend::strings_view;

verus! {

/// A path whose file name has the extension `sol`: it ends in `.sol`, and
/// something other than a path separator stands before the dot.
pub open spec fn is_solidity_path(p: Seq<char>) -> bool {
    &&& p.len() >= 5
    &&& p[p.len() - 5] != '/'
    &&& p[p.len() - 4] == '.'
    &&& p[p.len() - 3] == 's'
    &&& p[p.len() - 2] == 'o'
    &&& p[p.len() - 1] == 'l'
}

/// The paths among `v` that name Solidity source files, in their order.
pub open spec fn solidity_only(v: Seq<Seq<char>>) -> Seq<Seq<char>> {
    v.filter(|p: Seq<char>| is_solidity_path(p))
}

/// Whether `path` names a Solidity source file.
pub fn is_solidity_file(path: &str) -> (r: bool)
    ensures
        r == is_solidity_path(path@),
{
    let n = path.unicode_len();
    if n < 5 {
        return false;
    }
    path.get_char(n - 5) != '/' && path.get_char(n - 4) == '.' && path.get_char(n - 3) == 's'
        && path.get_char(n - 2) == 'o' && path.get_char(n - 1) == 'l'
}

/// The entries of a directory that are Solidity source files, in their order.
pub fn solidity_file_paths(entries: &Vec<String>) -> (r: Vec<String>)
    ensures
        strings_view(r@) == solidity_only(strings_view(entries@)),
{
    let mut r: Vec<String> = Vec::new();
    let mut i: usize = 0;
    while i < entries.len()
        invariant
            i <= entries@.len(),
            strings_view(r@) == solidity_only(strings_view(entries@).subrange(0, i as int)),
        decreases entries@.len() - i,
    {
        let ghost before = strings_view(entries@).subrange(0, i as int);
        let ghost after = strings_view(entries@).subrange(0, i as int + 1);
        proof {
            assert(after.drop_last() =~= before);
            assert(after.last() == entries@[i as int]@);
            reveal(Seq::filter);
            assert(solidity_only(after) == if is_solidity_path(after.last()) {
                solidity_only(before).push(after.last())
            } else {
                solidity_only(before)
            });
        }
        if is_solidity_file(entries[i].as_str()) {
            r.push(entries[i].clone());
            assert(strings_view(r@) =~= solidity_only(before).push(entries@[i as int]@));
        } else {
            assert(strings_view(r@) == solidity_only(after));
        }
        i = i + 1;
    }
    assert(strings_view(entries@).subrange(0, i as int) =~= strings_view(entries@));
    r
}

} // verus!
