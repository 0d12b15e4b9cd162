//! Where the entries of a downloaded archive are unpacked.

use vstd::prelude::*;

verus! {

/// Where an archive entry goes, as the components of its path below the
/// output directory: nowhere for an entry whose name is unsafe (`enclosed`
/// is `None`: its name would leave the output directory); with
/// `skip_root_dir`, without its first component, and nowhere where nothing
/// is left after that.
pub open spec fn entry_target<T>(enclosed: Option<Seq<T>>, skip_root_dir: bool) -> Option<Seq<T>> {
    match enclosed {
        None => None,
        Some(c) => if !skip_root_dir {
            Some(c)
        } else if c.len() <= 1 {
            None
        } else {
            Some(c.skip(1))
        },
    }
}

/// Dropping the top directory loses nothing else: an entry with at least
/// two components goes to its path without the first component (put that
/// component back in front and the whole path returns), and only an entry
/// with nothing below the top directory is skipped. Without dropping, every
/// safe entry goes to its own path.
pub proof fn dropping_top_directory<T>(c: Seq<T>)
    ensures
        entry_target(Some(c), false) == Some(c),
        entry_target(Some(c), true) is None <==> c.len() <= 1,
        entry_target(Some(c), true) matches Some(r) ==> seq![c[0]] + r == c && r.len() + 1
            == c.len(),
{
    if c.len() > 1 {
        assert(seq![c[0]] + c.skip(1) =~= c);
    }
}

/// The path components below the output directory that an archive entry is
/// unpacked to, given the components of its enclosed name (if it has one),
/// or `None` where the entry is skipped.
pub fn entry_output_components<T>(enclosed: Option<Vec<T>>, skip_root_dir: bool) -> (r: Option<
    Vec<T>,
>)
    ensures
        match r {
            Some(v) => entry_target(
                match enclosed {
                    Some(c) => Some(c@),
                    None => None,
                },
                skip_root_dir,
            ) == Some(v@),
            None => entry_target(
                match enclosed {
                    Some(c) => Some(c@),
                    None => None,
                },
                skip_root_dir,
            ) is None,
        },
{
    match enclosed {
        None => None,
        Some(mut c) => if !skip_root_dir {
            Some(c)
        } else if c.len() <= 1 {
            None
        } else {
            let ghost before = c@;
            c.remove(0);
            assert(c@ =~= before.skip(1));
            Some(c)
        },
    }
}

} // verus!
