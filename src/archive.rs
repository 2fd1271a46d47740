use vstd::prelude::*;

verus! {

/// A path met while walking a snapshot's directory tree.
pub struct WalkedPath {
    pub path: String,
    pub is_file: bool,
}

/// An entry of the archive, named by its path relative to the snapshot root.
pub struct ArchiveEntry {
    pub name: String,
    /// A directory entry, recorded so that empty directories survive.
    pub directory: bool,
}

/// The name of `path` relative to `root`: empty for the root itself, the
/// rest after `root/` for a path beneath it, and none for any other path.
pub open spec fn relative_name_of(path: Seq<char>, root: Seq<char>) -> Option<Seq<char>> {
    if path == root {
        Some(Seq::<char>::empty())
    } else if path.len() > root.len() && path.subrange(0, root.len() as int) == root
        && path[root.len() as int] == '/' {
        Some(path.subrange((root.len() + 1) as int, path.len() as int))
    } else {
        None
    }
}

/// The archive entry for a walked path, if it gets one: every file, and every
/// directory but the root, under its relative name.
pub open spec fn entry_of(root: Seq<char>, w: WalkedPath) -> Option<(Seq<char>, bool)> {
    match relative_name_of(w.path@, root) {
        Some(name) => if w.is_file {
            Some((name, false))
        } else if name.len() > 0 {
            Some((name, true))
        } else {
            None
        },
        None => None,
    }
}

/// The entries of the archive of the tree at `root`, in walk order.
pub open spec fn planned_entries(root: Seq<char>, walked: Seq<WalkedPath>) -> Seq<(Seq<char>, bool)>
    decreases walked.len(),
{
    if walked.len() == 0 {
        Seq::empty()
    } else {
        let rest = planned_entries(root, walked.drop_last());
        match entry_of(root, walked.last()) {
            Some(e) => rest.push(e),
            None => rest,
        }
    }
}

/// The views of archive entries.
pub open spec fn entry_views(v: Seq<ArchiveEntry>) -> Seq<(Seq<char>, bool)> {
    v.map_values(|e: ArchiveEntry| (e.name@, e.directory))
}

/// The name of `path` relative to `root`, as `relative_name_of` states it.
pub fn relative_name(path: &String, root: &String) -> (r: Option<String>)
    ensures
        r matches Some(s) ==> relative_name_of(path@, root@) == Some(s@),
        r is None ==> relative_name_of(path@, root@) is None,
{
    let p = path.as_str();
    let q = root.as_str();
    let plen = p.unicode_len();
    let qlen = q.unicode_len();
    if plen < qlen {
        return None;
    }
    let mut i: usize = 0;
    while i < qlen
        invariant
            qlen == root@.len(),
            plen == path@.len(),
            qlen <= plen,
            i <= qlen,
            p@ == path@,
            q@ == root@,
            path@.subrange(0, i as int) == root@.subrange(0, i as int),
        decreases qlen - i,
    {
        if p.get_char(i) != q.get_char(i) {
            assert(path@.subrange(0, qlen as int)[i as int] != root@[i as int]);
            return None;
        }
        assert(path@.subrange(0, i as int + 1) =~= path@.subrange(0, i as int).push(path@[i as int]));
        assert(root@.subrange(0, i as int + 1) =~= root@.subrange(0, i as int).push(root@[i as int]));
        i = i + 1;
    }
    assert(root@.subrange(0, qlen as int) =~= root@);
    if plen == qlen {
        assert(path@ =~= root@);
        return Some(String::new());
    }
    if p.get_char(qlen) != '/' {
        assert(path@ != root@);
        return None;
    }
    assert(path@ != root@) by {
        assert(path@.len() != root@.len());
    }
    let rest = p.substring_char(qlen + 1, plen);
    Some(rest.to_string())
}

/// The entries of the archive of the snapshot tree at `root`, given the paths
/// met while walking it: each file, and each directory below the root, under
/// its name relative to the root; paths outside the root are left out.
pub fn zip_dir(root: &String, walked: &Vec<WalkedPath>) -> (r: Vec<ArchiveEntry>)
    ensures
        entry_views(r@) == planned_entries(root@, walked@),
{
    let mut entries: Vec<ArchiveEntry> = Vec::new();
    let mut i: usize = 0;
    while i < walked.len()
        invariant
            i <= walked.len(),
            entry_views(entries@) == planned_entries(root@, walked@.subrange(0, i as int)),
        decreases walked.len() - i,
    {
        let ghost prefix = walked@.subrange(0, i as int + 1);
        assert(prefix.drop_last() =~= walked@.subrange(0, i as int));
        assert(prefix.last() == walked@[i as int]);
        let ghost before = entries@;
        let w = &walked[i];
        match relative_name(&w.path, root) {
            Some(name) => {
                if w.is_file {
                    entries.push(ArchiveEntry { name, directory: false });
                    assert(entry_views(entries@) =~= entry_views(before).push(
                        (entries@.last().name@, false),
                    ));
                } else if name.as_str().unicode_len() > 0 {
                    entries.push(ArchiveEntry { name, directory: true });
                    assert(entry_views(entries@) =~= entry_views(before).push(
                        (entries@.last().name@, true),
                    ));
                }
            },
            None => {},
        }
        i = i + 1;
    }
    assert(walked@.subrange(0, walked.len() as int) =~= walked@);
    entries
}

} // verus!
