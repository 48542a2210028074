use vstd::prelude::*;

verus! {

/// The directory that holds one unpacked release: `kcl-language-server-<version>`.
pub open spec fn version_dir_spec(version: Seq<char>) -> Seq<char> {
    "kcl-language-server-"@ + version
}

/// Where the server binary lies inside a version directory.
pub open spec fn binary_path_spec(version_dir: Seq<char>) -> Seq<char> {
    version_dir + "/kclvm/bin/kcl-language-server"@
}

/// The names of a directory listing that are to be removed: all but `keep`,
/// in the listing's order.
pub open spec fn stale_entries_spec(names: Seq<Seq<char>>, keep: Seq<char>) -> Seq<Seq<char>> {
    names.filter(other_than(keep))
}

/// Holds of every name but `keep`.
pub open spec fn other_than(keep: Seq<char>) -> spec_fn(Seq<char>) -> bool {
    |n: Seq<char>| n != keep
}

/// The character sequences of a list of strings.
pub open spec fn names_view(names: Seq<String>) -> Seq<Seq<char>> {
    names.map_values(|s: String| s@)
}

pub fn version_dir(version: &str) -> (r: String)
    ensures
        r@ == version_dir_spec(version@),
{
    let mut dir = String::from_str("kcl-language-server-");
    dir.append(version);
    dir
}

pub fn binary_path(version_dir: &str) -> (r: String)
    ensures
        r@ == binary_path_spec(version_dir@),
{
    let mut path = String::from_str(version_dir);
    path.append("/kclvm/bin/kcl-language-server");
    path
}

/// Picks from a listing of the working directory every entry other than
/// the current version directory.
pub fn stale_entries(names: &Vec<String>, keep: &String) -> (r: Vec<String>)
    ensures
        names_view(r@) == stale_entries_spec(names_view(names@), keep@),
{
    let ghost all = names_view(names@);
    let ghost pred = other_than(keep@);
    let mut out: Vec<String> = Vec::new();
    let mut i: usize = 0;
    while i < names.len()
        invariant
            i <= names.len(),
            all == names_view(names@),
            pred == other_than(keep@),
            names_view(out@) == all.take(i as int).filter(pred),
        decreases names.len() - i,
    {
        proof {
            reveal(Seq::filter);
            assert(all.take(i as int + 1).drop_last() == all.take(i as int));
        }
        if names[i] != *keep {
            let ghost before = out@;
            out.push(names[i].clone());
            proof {
                assert(names_view(out@) == names_view(before).push(all[i as int]));
            }
        }
        i = i + 1;
    }
    proof {
        assert(all.take(names.len() as int) == all);
    }
    out
}

} // verus!
