use vstd::prelude::*;

use crate::app::{Package, PackageView};
use crate::text::{chars_of, lines_of, split_lines, string_from_range, string_views};

verus! {

/// `k` is the position of the first space of `s`.
pub open spec fn is_first_space(s: Seq<char>, k: int) -> bool {
    &&& 0 <= k < s.len()
    &&& s[k] == ' '
    &&& forall|j: int| 0 <= j < k ==> s[j] != ' '
}

/// A line of `pacman -Q` read as "name version": the name is what stands before the
/// first space, the version all that follows it. A line without a space holds no package.
pub open spec fn parse_line(s: Seq<char>) -> Option<PackageView> {
    if exists|k: int| is_first_space(s, k) {
        let k = choose|k: int| is_first_space(s, k);
        Some((s.take(k), s.skip(k + 1)))
    } else {
        None
    }
}

/// The packages that the output of `pacman -Q` lists, in the order of its lines.
pub open spec fn installed_packages(output: Seq<char>) -> Seq<PackageView> {
    lines_of(output).filter_map(|line: Seq<char>| parse_line(line))
}

/// Reads one line of `pacman -Q` output as a package, if it has a space.
pub fn parse_package_line(line: &str) -> (r: Option<Package>)
    ensures
        match r {
            Some(p) => parse_line(line@) == Some(p@),
            None => parse_line(line@) is None,
        },
{
    let cs = chars_of(line);
    let mut k: usize = 0;
    while k < cs.len()
        invariant
            cs@ == line@,
            k <= cs@.len(),
            forall|j: int| 0 <= j < k ==> cs@[j] != ' ',
        decreases cs@.len() - k,
    {
        if cs[k] == ' ' {
            assert(is_first_space(line@, k as int));
            proof {
                let c = choose|c: int| is_first_space(line@, c);
                assert(c == k as int);
            }
            let name = string_from_range(&cs, 0, k);
            let version = string_from_range(&cs, k + 1, cs.len());
            assert(cs@.subrange(0, k as int) == line@.take(k as int));
            assert(cs@.subrange(k + 1, cs@.len() as int) == line@.skip(k + 1));
            return Some(Package { name, version });
        }
        k = k + 1;
    }
    None
}

/// The installed packages listed by the output of `pacman -Q`, one "name version"
/// per line; lines without a space are passed over.
pub fn parse_installed_packages(output: &str) -> (r: Vec<Package>)
    ensures
        r@.map_values(|p: Package| p@) == installed_packages(output@),
{
    let lines = split_lines(output);
    let ghost ls = string_views(lines@);
    let mut r: Vec<Package> = Vec::new();
    let mut i: usize = 0;
    while i < lines.len()
        invariant
            ls == string_views(lines@),
            ls == lines_of(output@),
            i <= lines@.len(),
            r@.map_values(|p: Package| p@) == ls.take(i as int).filter_map(
                |line: Seq<char>| parse_line(line),
            ),
        decreases lines@.len() - i,
    {
        let ghost before = r@;
        let parsed = parse_package_line(lines[i].as_str());
        assert(ls.take(i + 1).drop_last() == ls.take(i as int));
        assert(ls.take(i + 1).last() == lines@[i as int]@);
        match parsed {
            Some(p) => {
                r.push(p);
                assert(r@.map_values(|p: Package| p@) =~= before.map_values(|p: Package| p@)
                    + seq![r@.last()@]);
            },
            None => {},
        }
        i = i + 1;
    }
    assert(ls.take(lines@.len() as int) == ls);
    r
}

/// The lines of the output of `pacman -Qi`, as they are shown in the details pane.
pub fn package_detail_lines(output: &str) -> (r: Vec<String>)
    ensures
        string_views(r@) == lines_of(output@),
{
    split_lines(output)
}

} // verus!
