//! The data package manifest of a WACZ file and the digests it lists.

use vstd::prelude::*;
use vstd::string::*;
use crate::codec::{sha256, sha256_outside};
use crate::json::{json_number, json_string, push_json_number, push_json_string};
use crate::text::{chars_of, hex_lower, hex_string, push_text, utf8};

verus! {

/// One file of the package: its name, its path inside the package, the
/// SHA-256 digest of its bytes and its length.
#[derive(Debug)]
pub struct DataPackageEntry {
    pub name: String,
    pub path: String,
    pub hash: [u8; 32],
    pub bytes: u64,
}

/// The mathematical value of a [`DataPackageEntry`].
pub ghost struct DataPackageEntryView {
    pub name: Seq<char>,
    pub path: Seq<char>,
    pub hash: Seq<u8>,
    pub bytes: u64,
}

impl View for DataPackageEntry {
    type V = DataPackageEntryView;

    open spec fn view(&self) -> DataPackageEntryView {
        DataPackageEntryView {
            name: self.name@,
            path: self.path@,
            hash: self.hash@,
            bytes: self.bytes,
        }
    }
}

impl Clone for DataPackageEntry {
    fn clone(&self) -> (r: Self)
        ensures
            r@ == self@,
    {
        DataPackageEntry {
            name: self.name.clone(),
            path: self.path.clone(),
            hash: self.hash,
            bytes: self.bytes,
        }
    }
}

/// The values of a list of entries.
pub open spec fn entries_view(e: Seq<DataPackageEntry>) -> Seq<DataPackageEntryView> {
    Seq::new(e.len(), |i: int| e[i]@)
}

/// The manifest of a WACZ file.
#[derive(Debug)]
pub struct DataPackage {
    pub profile: &'static str,
    pub wacz_version: &'static str,
    pub software: &'static str,
    /// When the package was made, in RFC 3339.
    pub created: String,
    /// The files of the package, in the order they were added.
    pub resources: Vec<DataPackageEntry>,
}

/// A digest as the manifest and the indexes write it: `sha256:` and
/// sixty-four lower-case hexadecimal digits.
pub open spec fn digest_text(hash: Seq<u8>) -> Seq<char> {
    "sha256:"@ + hex_lower(hash)
}

/// Where a file of a directory lies in the package: the directory, a slash
/// unless the directory is empty or ends in one, and the name.
pub open spec fn package_path(dir: Seq<char>, name: Seq<char>) -> Seq<char> {
    if dir.len() == 0 || dir.last() == '/' {
        dir + name
    } else {
        dir + seq!['/'] + name
    }
}

/// The entry for a file with these bytes.
pub open spec fn entry_of(dir: Seq<char>, name: Seq<char>, bytes: Seq<u8>) -> DataPackageEntryView {
    DataPackageEntryView {
        name,
        path: package_path(dir, name),
        hash: sha256(bytes),
        bytes: bytes.len() as u64,
    }
}

/// An entry says the truth about a file: its hash is the SHA-256 digest of
/// the file's bytes and its length is the file's.
pub open spec fn describes(entry: DataPackageEntryView, bytes: Seq<u8>) -> bool {
    entry.hash == sha256(bytes) && entry.bytes == bytes.len()
}

/// Writes a digest as `sha256:` and its lower-case hexadecimal digits.
pub fn sha256_as_string(hash: &[u8; 32]) -> (r: String)
    ensures
        r@ == digest_text(hash@),
{
    let mut out = String::from_str("sha256:");
    let hex = hex_string(hash.as_slice());
    out.append(hex.as_str());
    out
}

/// The SHA-256 digest of a file's bytes.
pub fn file_digest(file: &[u8]) -> (r: [u8; 32])
    ensures
        r@ == sha256(file@),
{
    sha256_outside(file)
}

/// Joins a directory of the package and a file name.
pub fn join_path(dir: &str, name: &str) -> (r: String)
    ensures
        r@ == package_path(dir@, name@),
{
    let chars = chars_of(dir);
    let mut out = String::from_str(dir);
    if chars.len() > 0 && chars[chars.len() - 1] != '/' {
        out.append("/");
        proof {
            reveal_strlit("/");
        }
    }
    out.append(name);
    out
}

/// The entry for a file of the package: hashed and measured.
pub fn describe_file(dir: &str, name: &str, file: &[u8]) -> (r: DataPackageEntry)
    ensures
        r@ == entry_of(dir@, name@, file@),
        describes(r@, file@),
{
    DataPackageEntry {
        name: String::from_str(name),
        path: join_path(dir, name),
        hash: file_digest(file),
        bytes: file.len() as u64,
    }
}

/// The mathematical value of a [`DataPackage`].
pub ghost struct DataPackageView {
    pub profile: Seq<char>,
    pub wacz_version: Seq<char>,
    pub software: Seq<char>,
    pub created: Seq<char>,
    pub resources: Seq<DataPackageEntryView>,
}

impl View for DataPackage {
    type V = DataPackageView;

    open spec fn view(&self) -> DataPackageView {
        DataPackageView {
            profile: self.profile@,
            wacz_version: self.wacz_version@,
            software: self.software@,
            created: self.created@,
            resources: entries_view(self.resources@),
        }
    }
}

/// One entry of the manifest as indented JSON, without a line end.
pub open spec fn resource_json(e: DataPackageEntryView) -> Seq<u8> {
    utf8("    {\n      \"name\": "@) + json_string(e.name) + utf8(",\n      \"path\": "@)
        + json_string(e.path) + utf8(",\n      \"hash\": "@) + json_string(digest_text(e.hash))
        + utf8(",\n      \"bytes\": "@) + json_number(e.bytes as nat) + utf8("\n    }"@)
}

/// The entries of the manifest, each on lines of its own, joined by commas.
pub open spec fn resource_rows(entries: Seq<DataPackageEntryView>) -> Seq<u8>
    decreases entries.len(),
{
    if entries.len() == 0 {
        Seq::empty()
    } else if entries.len() == 1 {
        resource_json(entries[0])
    } else {
        resource_rows(entries.drop_last()) + utf8(",\n"@) + resource_json(entries.last())
    }
}

/// The list of entries as indented JSON: `[]` where there is none.
pub open spec fn resources_json(entries: Seq<DataPackageEntryView>) -> Seq<u8> {
    if entries.len() == 0 {
        utf8("[]"@)
    } else {
        utf8("[\n"@) + resource_rows(entries) + utf8("\n  ]"@)
    }
}

/// The manifest as indented JSON, its fields in their order.
pub open spec fn package_json(p: DataPackageView) -> Seq<u8> {
    utf8("{\n  \"profile\": "@) + json_string(p.profile) + utf8(",\n  \"wacz_version\": "@)
        + json_string(p.wacz_version) + utf8(",\n  \"software\": "@) + json_string(p.software)
        + utf8(",\n  \"created\": "@) + json_string(p.created) + utf8(",\n  \"resources\": "@)
        + resources_json(p.resources) + utf8("\n}"@)
}

impl DataPackageEntry {
    /// The entry as indented JSON, as it stands in the manifest.
    pub fn to_json(&self) -> (r: Vec<u8>)
        ensures
            r@ == resource_json(self@),
    {
        let mut out: Vec<u8> = Vec::new();
        push_text(&mut out, "    {\n      \"name\": ");
        push_json_string(&mut out, self.name.as_str());
        push_text(&mut out, ",\n      \"path\": ");
        push_json_string(&mut out, self.path.as_str());
        push_text(&mut out, ",\n      \"hash\": ");
        push_json_string(&mut out, sha256_as_string(&self.hash).as_str());
        push_text(&mut out, ",\n      \"bytes\": ");
        push_json_number(&mut out, self.bytes);
        push_text(&mut out, "\n    }");
        out
    }
}

impl DataPackage {
    /// The manifest of a package made at `created`, a time in RFC 3339,
    /// with these files.
    pub fn new(created: String, resources: Vec<DataPackageEntry>) -> (r: DataPackage)
        ensures
            r@ == (DataPackageView {
                profile: "data-package"@,
                wacz_version: "1.1.1"@,
                software: "Evergarden (https://github.com/kore-signet/evergarden)"@,
                created: created@,
                resources: entries_view(resources@),
            }),
    {
        DataPackage {
            profile: "data-package",
            wacz_version: "1.1.1",
            software: "Evergarden (https://github.com/kore-signet/evergarden)",
            created,
            resources,
        }
    }

    /// The manifest as indented JSON: the bytes of `datapackage.json`.
    pub fn to_json_pretty(&self) -> (r: Vec<u8>)
        ensures
            r@ == package_json(self@),
    {
        let mut rows: Vec<u8> = Vec::new();
        let ghost entries = entries_view(self.resources@);
        let mut i: usize = 0;
        while i < self.resources.len()
            invariant
                i <= self.resources@.len(),
                entries == entries_view(self.resources@),
                rows@ == resource_rows(entries.take(i as int)),
            decreases self.resources@.len() - i,
        {
            let row = self.resources[i].to_json();
            proof {
                assert(entries.take(i as int + 1).drop_last() =~= entries.take(i as int));
            }
            if i > 0 {
                push_text(&mut rows, ",\n");
            }
            rows.extend_from_slice(row.as_slice());
            i += 1;
        }
        proof {
            assert(entries.take(i as int) =~= entries);
        }
        let mut list: Vec<u8> = Vec::new();
        if self.resources.len() == 0 {
            push_text(&mut list, "[]");
        } else {
            push_text(&mut list, "[\n");
            list.extend_from_slice(rows.as_slice());
            push_text(&mut list, "\n  ]");
        }
        let mut out: Vec<u8> = Vec::new();
        push_text(&mut out, "{\n  \"profile\": ");
        push_json_string(&mut out, self.profile);
        push_text(&mut out, ",\n  \"wacz_version\": ");
        push_json_string(&mut out, self.wacz_version);
        push_text(&mut out, ",\n  \"software\": ");
        push_json_string(&mut out, self.software);
        push_text(&mut out, ",\n  \"created\": ");
        push_json_string(&mut out, self.created.as_str());
        push_text(&mut out, ",\n  \"resources\": ");
        out.extend_from_slice(list.as_slice());
        push_text(&mut out, "\n}");
        out
    }
}

} // verus!
