//! The installed packages, read from the package manager's listing. Running
//! the package manager is the caller's business.

use crate::text::{
    lines_of,
    line_views,
    split_lines,
    string_of_range,
    to_chars,
    trimmed,
    trimmed_end_len,
    trimmed_start_offset,
};
use vstd::prelude::*;

verus! {

/// An installed package.
#[derive(Debug)]
pub struct BrewPackage {
    pub name: String,
}

impl Clone for BrewPackage {
    fn clone(&self) -> (copy: Self)
        ensures
            copy.name@ == self.name@,
    {
        BrewPackage { name: self.name.clone() }
    }
}

/// The names on `lines`: each line without the white space around it,
/// unless nothing is left of it.
pub open spec fn names_on(lines: Seq<Seq<char>>) -> Seq<Seq<char>>
    decreases lines.len(),
{
    if lines.len() == 0 {
        Seq::<Seq<char>>::empty()
    } else {
        let before = names_on(lines.drop_last());
        let name = trimmed(lines.last());
        if name.len() > 0 {
            before.push(name)
        } else {
            before
        }
    }
}

/// The names of `packages`, in order.
pub open spec fn package_names(packages: Seq<BrewPackage>) -> Seq<Seq<char>> {
    packages.map_values(|p: BrewPackage| p.name@)
}

/// Reads the listing of installed formulae: one package per line that is
/// not blank, named by the line without the white space around it.
pub fn get_installed_packages(listing: &str) -> (packages: Vec<BrewPackage>)
    ensures
        package_names(packages@) == names_on(split_lines(listing@)),
{
    let chars = to_chars(listing);
    let lines = lines_of(chars.as_slice());
    let mut packages: Vec<BrewPackage> = Vec::new();
    let mut i: usize = 0;
    while i < lines.len()
        invariant
            i <= lines.len(),
            package_names(packages@) == names_on(line_views(lines@).take(i as int)),
        decreases lines.len() - i,
    {
        let line = &lines[i];
        let end = trimmed_end_len(line.as_slice());
        let start = trimmed_start_offset(line.as_slice(), end);
        proof {
            let all = line_views(lines@);
            assert(all.take(i + 1).drop_last() =~= all.take(i as int));
        }
        if start < end {
            let name = string_of_range(line.as_slice(), start, end);
            packages.push(BrewPackage { name });
        }
        i = i + 1;
    }
    proof {
        assert(line_views(lines@).take(lines.len() as int) =~= line_views(lines@));
    }
    packages
}

} // verus!
