//! What a container asks of the filesystem once a build's files are in
//! place: the files it names, the permissions of its entries and its
//! symbolic links.
use vstd::prelude::*;
use crate::wharf::common::WharfError;
use crate::wharf::tlc::{Container, SpecDir, SpecFile, SpecSymlink};

verus! {

/// The file numbered `file_index` in the container.
pub fn get_container_file(container: &Container, file_index: usize) -> (r: Result<&crate::wharf::tlc::File, WharfError>)
    ensures
        file_index < container.files@.len() ==> (r matches Ok(f) && *f == container.files@[file_index as int]),
        file_index >= container.files@.len() ==> (r matches Err(e) && e == WharfError::InvalidOldFileIndex),
{
    if file_index < container.files.len() {
        Ok(&container.files[file_index])
    } else {
        Err(WharfError::InvalidOldFileIndex)
    }
}

/// The path and mode of each file.
pub open spec fn files_modes(s: Seq<SpecFile>) -> Seq<(Seq<char>, u32)> {
    s.map_values(|f: SpecFile| (f.path, f.mode))
}

/// The path and mode of each directory.
pub open spec fn dirs_modes(s: Seq<SpecDir>) -> Seq<(Seq<char>, u32)> {
    s.map_values(|d: SpecDir| (d.path, d.mode))
}

/// The path and mode of each symbolic link.
pub open spec fn symlinks_modes(s: Seq<SpecSymlink>) -> Seq<(Seq<char>, u32)> {
    s.map_values(|l: SpecSymlink| (l.path, l.mode))
}

/// The path and the destination of each symbolic link.
pub open spec fn symlinks_links(s: Seq<SpecSymlink>) -> Seq<(Seq<char>, Seq<char>)> {
    s.map_values(|l: SpecSymlink| (l.path, l.dest))
}

/// The path and mode of every entry of a container: its files, then its
/// directories, then its symbolic links, each in the container's order.
pub open spec fn spec_permissions(
    files: Seq<SpecFile>,
    dirs: Seq<SpecDir>,
    symlinks: Seq<SpecSymlink>,
) -> Seq<(Seq<char>, u32)> {
    files_modes(files) + dirs_modes(dirs) + symlinks_modes(symlinks)
}

/// The texts and numbers of a list of pairs.
pub open spec fn modes_view(v: Seq<(String, u32)>) -> Seq<(Seq<char>, u32)> {
    v.map_values(|p: (String, u32)| (p.0@, p.1))
}

/// The permissions to set once a build is in place: each entry's path,
/// relative to the build's folder, and its mode.
pub fn container_permissions(container: &Container) -> (r: Vec<(String, u32)>)
    ensures
        modes_view(r@) == spec_permissions(
            container@.files,
            container@.dirs,
            container@.symlinks,
        ),
{
    let mut out: Vec<(String, u32)> = Vec::new();
    let mut i: usize = 0;
    while i < container.files.len()
        invariant
            i <= container.files@.len(),
            modes_view(out@) == files_modes(container@.files.take(i as int)),
        decreases container.files@.len() - i,
    {
        let ghost before = out@;
        out.push((container.files[i].path.clone(), container.files[i].mode));
        proof {
            assert(container@.files[i as int] == container.files@[i as int]@);
            assert(modes_view(out@) =~= modes_view(before).push(
                (container@.files[i as int].path, container@.files[i as int].mode),
            ));
            assert(files_modes(container@.files.take(i + 1)) =~= files_modes(container@.files.take(i as int)).push(
                (container@.files[i as int].path, container@.files[i as int].mode),
            ));
            assert(modes_view(out@) =~= files_modes(container@.files.take(i + 1)));
        }
        i = i + 1;
    }
    let ghost after_files = modes_view(out@);
    let mut i: usize = 0;
    while i < container.dirs.len()
        invariant
            i <= container.dirs@.len(),
            modes_view(out@) == after_files + dirs_modes(container@.dirs.take(i as int)),
        decreases container.dirs@.len() - i,
    {
        let ghost before = out@;
        out.push((container.dirs[i].path.clone(), container.dirs[i].mode));
        proof {
            assert(container@.dirs[i as int] == container.dirs@[i as int]@);
            assert(modes_view(out@) =~= modes_view(before).push(
                (container@.dirs[i as int].path, container@.dirs[i as int].mode),
            ));
            assert(dirs_modes(container@.dirs.take(i + 1)) =~= dirs_modes(container@.dirs.take(i as int)).push(
                (container@.dirs[i as int].path, container@.dirs[i as int].mode),
            ));
            assert(modes_view(out@) =~= after_files + dirs_modes(container@.dirs.take(i + 1)));
        }
        i = i + 1;
    }
    let ghost after_dirs = modes_view(out@);
    let mut i: usize = 0;
    while i < container.symlinks.len()
        invariant
            i <= container.symlinks@.len(),
            modes_view(out@) == after_dirs + symlinks_modes(container@.symlinks.take(i as int)),
        decreases container.symlinks@.len() - i,
    {
        let ghost before = out@;
        out.push((container.symlinks[i].path.clone(), container.symlinks[i].mode));
        proof {
            assert(container@.symlinks[i as int] == container.symlinks@[i as int]@);
            assert(modes_view(out@) =~= modes_view(before).push(
                (container@.symlinks[i as int].path, container@.symlinks[i as int].mode),
            ));
            assert(symlinks_modes(container@.symlinks.take(i + 1)) =~= symlinks_modes(container@.symlinks.take(i as int)).push(
                (container@.symlinks[i as int].path, container@.symlinks[i as int].mode),
            ));
            assert(modes_view(out@) =~= after_dirs + symlinks_modes(container@.symlinks.take(i + 1)));
        }
        i = i + 1;
    }
    proof {
        assert(container@.files.take(container@.files.len() as int) =~= container@.files);
        assert(container@.dirs.take(container@.dirs.len() as int) =~= container@.dirs);
        assert(container@.symlinks.take(container@.symlinks.len() as int) =~= container@.symlinks);
    }
    out
}

/// The texts of a list of pairs of strings.
pub open spec fn links_view(v: Seq<(String, String)>) -> Seq<(Seq<char>, Seq<char>)> {
    v.map_values(|p: (String, String)| (p.0@, p.1@))
}

/// The symbolic links to create once a build is in place: each link's path
/// and the path it points to, both relative to the build's folder.
pub fn container_symlinks(container: &Container) -> (r: Vec<(String, String)>)
    ensures
        links_view(r@) == symlinks_links(container@.symlinks),
{
    let mut out: Vec<(String, String)> = Vec::new();
    let mut i: usize = 0;
    while i < container.symlinks.len()
        invariant
            i <= container.symlinks@.len(),
            links_view(out@) == symlinks_links(container@.symlinks.take(i as int)),
        decreases container.symlinks@.len() - i,
    {
        let ghost before = out@;
        out.push((container.symlinks[i].path.clone(), container.symlinks[i].dest.clone()));
        proof {
            assert(container@.symlinks[i as int] == container.symlinks@[i as int]@);
            assert(links_view(out@) =~= links_view(before).push(
                (container@.symlinks[i as int].path, container@.symlinks[i as int].dest),
            ));
            assert(symlinks_links(container@.symlinks.take(i + 1)) =~= symlinks_links(container@.symlinks.take(i as int)).push(
                (container@.symlinks[i as int].path, container@.symlinks[i as int].dest),
            ));
            assert(links_view(out@) =~= symlinks_links(container@.symlinks.take(i + 1)));
        }
        i = i + 1;
    }
    proof {
        assert(container@.symlinks.take(container@.symlinks.len() as int) =~= container@.symlinks);
    }
    out
}

} // verus!
