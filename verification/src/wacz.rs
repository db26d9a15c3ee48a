//! The WACZ package: its members in the order they are added to the ZIP
//! file, and the manifest that lists its files.

use vstd::prelude::*;
use vstd::string::*;
use crate::cdxj::LineView;
use crate::package::{
    describes, entries_view, entry_of, package_json, DataPackage, DataPackageEntry,
    DataPackageEntryView, DataPackageView,
};
use crate::warc::warc_file_name;

verus! {

/// How a member of the package is stored in the ZIP file.
#[derive(Clone, Copy, Debug, PartialEq, Eq, Structural)]
pub enum Storing {
    /// As it is.
    Stored,
    /// Deflated at the level the ZIP writer picks.
    Deflated,
    /// Deflated at the highest level, nine.
    DeflatedBest,
}

/// One member of the package: a directory, or a file with its bytes.
#[derive(Debug)]
pub struct WaczMember {
    /// The path inside the package; a directory's ends in a slash.
    pub path: String,
    /// Whether the member is a directory.
    pub directory: bool,
    /// How the member is stored.
    pub storing: Storing,
    /// The bytes of a file; a directory has none.
    pub bytes: Vec<u8>,
}

/// The mathematical value of a [`WaczMember`].
pub ghost struct WaczMemberView {
    pub path: Seq<char>,
    pub directory: bool,
    pub storing: Storing,
    pub bytes: Seq<u8>,
}

impl View for WaczMember {
    type V = WaczMemberView;

    open spec fn view(&self) -> WaczMemberView {
        WaczMemberView {
            path: self.path@,
            directory: self.directory,
            storing: self.storing,
            bytes: self.bytes@,
        }
    }
}

/// The values of a list of members.
pub open spec fn members_view(m: Seq<WaczMember>) -> Seq<WaczMemberView> {
    Seq::new(m.len(), |i: int| m[i]@)
}

/// A directory of the package.
pub open spec fn directory_member(path: Seq<char>, storing: Storing) -> WaczMemberView {
    WaczMemberView { path, directory: true, storing, bytes: Seq::empty() }
}

/// A file of the package.
pub open spec fn file_member(path: Seq<char>, storing: Storing, bytes: Seq<u8>) -> WaczMemberView {
    WaczMemberView { path, directory: false, storing, bytes }
}

/// A package ready to be written as a ZIP file.
#[derive(Debug)]
pub struct Wacz {
    /// The manifest.
    pub datapackage: DataPackage,
    /// The members of the ZIP file, in the order they are added.
    pub members: Vec<WaczMember>,
}

/// The files of a package, each with its entry for the manifest: the
/// index, the secondary index, the two pages files, and the WARC files.
pub ghost struct ExportFiles {
    pub index_name: Seq<char>,
    pub archive_dir: Seq<char>,
    pub index: Seq<u8>,
    pub secondary: Seq<u8>,
    pub pages: Seq<u8>,
    pub extra_pages: Seq<u8>,
    pub warcs: Seq<(nat, Seq<u8>)>,
    /// The lines that the index holds, in their order.
    pub lines: Seq<LineView>,
}

/// The file behind the resource at a place of the manifest: the index,
/// the secondary index, the pages, the extra pages, then the WARC files.
pub open spec fn file_at(f: ExportFiles, i: int) -> Seq<u8> {
    if i == 0 {
        f.index
    } else if i == 1 {
        f.secondary
    } else if i == 2 {
        f.pages
    } else if i == 3 {
        f.extra_pages
    } else {
        f.warcs[i - 4].1
    }
}

/// The resource at a place of the manifest.
pub open spec fn resource_at(f: ExportFiles, i: int) -> DataPackageEntryView {
    if i == 0 {
        entry_of("indexes/"@, f.index_name, f.index)
    } else if i == 1 {
        entry_of("indexes/"@, "index.idx"@, f.secondary)
    } else if i == 2 {
        entry_of("pages/"@, "pages.jsonl"@, f.pages)
    } else if i == 3 {
        entry_of("pages/"@, "extraPages.jsonl"@, f.extra_pages)
    } else {
        entry_of(f.archive_dir, warc_file_name(f.warcs[i - 4].0), f.warcs[i - 4].1)
    }
}

/// How the file behind the resource at a place of the manifest is stored:
/// the index and the WARC files as they are, for they are compressed
/// already; the others deflated.
pub open spec fn storing_at(i: int) -> Storing {
    if 1 <= i <= 3 {
        Storing::DeflatedBest
    } else {
        Storing::Stored
    }
}

/// The resources of the manifest: the index, the secondary index, the
/// pages, the extra pages, then the WARC files.
pub open spec fn resources_of(f: ExportFiles) -> Seq<DataPackageEntryView> {
    Seq::new(4 + f.warcs.len(), |i: int| resource_at(f, i))
}

/// The manifest of a package with these files, made at `created`.
pub open spec fn manifest_of(f: ExportFiles, created: Seq<char>) -> DataPackageView {
    DataPackageView {
        profile: "data-package"@,
        wacz_version: "1.1.1"@,
        software: "Evergarden (https://github.com/kore-signet/evergarden)"@,
        created,
        resources: resources_of(f),
    }
}

/// The member at a place of the package: the three directories, the
/// manifest, then the files that the manifest lists, in its order.
pub open spec fn member_at(f: ExportFiles, created: Seq<char>, i: int) -> WaczMemberView {
    if i == 0 {
        directory_member("archive/"@, Storing::Stored)
    } else if i == 1 {
        directory_member("indexes/"@, Storing::Stored)
    } else if i == 2 {
        directory_member("pages/"@, Storing::Deflated)
    } else if i == 3 {
        file_member("datapackage.json"@, Storing::DeflatedBest, package_json(manifest_of(f, created)))
    } else {
        file_member(resource_at(f, i - 4).path, storing_at(i - 4), file_at(f, i - 4))
    }
}

/// The members of a package, in the order they are added to the ZIP file.
pub open spec fn members_of(f: ExportFiles, created: Seq<char>) -> Seq<WaczMemberView> {
    Seq::new(8 + f.warcs.len(), |i: int| member_at(f, created, i))
}

/// How many members stand in front of the first file that the manifest
/// lists: three directories and the manifest itself.
pub open spec fn listed_from() -> int {
    4
}

/// Every resource of a manifest is held by the member that stands
/// `listed_from()` places further in the package: the member is a file at
/// the resource's path, and the resource holds the digest and the length
/// of the member's bytes.
pub open spec fn manifest_describes(
    resources: Seq<DataPackageEntryView>,
    members: Seq<WaczMemberView>,
) -> bool {
    &&& members.len() == resources.len() + listed_from()
    &&& forall|i: int|
        0 <= i < resources.len() ==> {
            let member = #[trigger] members[i + listed_from()];
            &&& !member.directory
            &&& member.path == resources[i].path
            &&& describes(resources[i], member.bytes)
        }
}

/// The files of an export are short enough for their lengths to be written.
pub open spec fn measurable(f: ExportFiles) -> bool {
    &&& f.index.len() <= u64::MAX
    &&& f.secondary.len() <= u64::MAX
    &&& f.pages.len() <= u64::MAX
    &&& f.extra_pages.len() <= u64::MAX
    &&& forall|i: int| 0 <= i < f.warcs.len() ==> (#[trigger] f.warcs[i]).1.len() <= u64::MAX
}

/// In every package, each resource of the manifest holds the SHA-256
/// digest and the length of the file at its path.
pub proof fn lemma_manifest_describes_members(f: ExportFiles, created: Seq<char>)
    requires
        measurable(f),
    ensures
        manifest_describes(resources_of(f), members_of(f, created)),
{
}

/// Puts a package together from its files and their entries.
pub(crate) fn pack(listed: Vec<(Vec<u8>, DataPackageEntry)>, created: &str, Ghost(f): Ghost<ExportFiles>) -> (r:
    Wacz)
    requires
        listed@.len() == 4 + f.warcs.len(),
        forall|i: int|
            0 <= i < listed@.len() ==> (#[trigger] listed@[i]).0@ == file_at(f, i) && listed@[i].1@
                == resource_at(f, i),
    ensures
        r.datapackage@ == manifest_of(f, created@),
        members_view(r.members@) == members_of(f, created@),
        measurable(f),
{
    let mut resources: Vec<DataPackageEntry> = Vec::new();
    let mut files: Vec<WaczMember> = Vec::new();
    let n = listed.len();
    let mut listed = listed;
    let mut i: usize = 0;
    while i < n
        invariant
            i <= n,
            n == listed@.len(),
            n == 4 + f.warcs.len(),
            resources@.len() == i,
            files@.len() == i,
            forall|k: int|
                i <= k < n ==> (#[trigger] listed@[k]).0@ == file_at(f, k) && listed@[k].1@
                    == resource_at(f, k),
            forall|k: int| 0 <= k < i ==> (#[trigger] resources@[k])@ == resource_at(f, k),
            forall|k: int| 0 <= k < i ==> #[trigger] file_at(f, k).len() <= usize::MAX,
            forall|k: int|
                0 <= k < i ==> (#[trigger] files@[k])@ == file_member(
                    resource_at(f, k).path,
                    storing_at(k),
                    file_at(f, k),
                ),
        decreases n - i,
    {
        let mut taken: (Vec<u8>, DataPackageEntry) = (
            Vec::new(),
            DataPackageEntry { name: String::new(), path: String::new(), hash: [0u8; 32], bytes: 0 },
        );
        std::mem::swap(&mut taken, &mut listed[i]);
        let (bytes, entry) = taken;
        let length = bytes.len();
        let storing = if 1 <= i && i <= 3 {
            Storing::DeflatedBest
        } else {
            Storing::Stored
        };
        resources.push(entry.clone());
        files.push(WaczMember { path: entry.path, directory: false, storing, bytes });
        i += 1;
    }
    proof {
        assert(entries_view(resources@) =~= resources_of(f));
        assert(file_at(f, 0) == f.index);
        assert(file_at(f, 1) == f.secondary);
        assert(file_at(f, 2) == f.pages);
        assert(file_at(f, 3) == f.extra_pages);
        assert forall|k: int| 0 <= k < f.warcs.len() implies (#[trigger] f.warcs[k]).1.len()
            <= u64::MAX by {
            assert(file_at(f, k + 4) == f.warcs[k].1);
        }
    }
    let datapackage = DataPackage::new(String::from_str(created), resources);
    let manifest = datapackage.to_json_pretty();
    let mut members: Vec<WaczMember> = Vec::new();
    members.push(
        WaczMember {
            path: String::from_str("archive/"),
            directory: true,
            storing: Storing::Stored,
            bytes: Vec::new(),
        },
    );
    members.push(
        WaczMember {
            path: String::from_str("indexes/"),
            directory: true,
            storing: Storing::Stored,
            bytes: Vec::new(),
        },
    );
    members.push(
        WaczMember {
            path: String::from_str("pages/"),
            directory: true,
            storing: Storing::Deflated,
            bytes: Vec::new(),
        },
    );
    members.push(
        WaczMember {
            path: String::from_str("datapackage.json"),
            directory: false,
            storing: Storing::DeflatedBest,
            bytes: manifest,
        },
    );
    members.append(&mut files);
    Wacz { datapackage, members }
}

} // verus!
