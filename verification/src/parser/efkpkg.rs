//! `.efkpkg` package files.
//!
//! An `.efkpkg` is a standard ZIP archive produced by the Effekseer editor's
//! *Export Package* command. It bundles a primary effect (`.efkefc`) together
//! with every texture, model, sound, material, and curve the effect references,
//! keyed by content hash.
//!
//! Inside the zip:
//! - `metafile.json`: an index describing each entry;
//! - one entry per file, named `<MD5-hex>-<LEN-hex>`.
//!
//! The primary effect's resource references are rewritten at export time to
//! the hash names, so looking up a referenced resource means calling
//! [`EfkPkg::get`] with the string that appears in the parsed effect.
//!
//! This module reads entries out of the archive, checks the entry names that
//! the index lists, assembles the package and parses its effect. Decoding the
//! JSON index into [`MetafileEntry`] values is left to the caller.

use vstd::prelude::*;
use vstd::std_specs::iter::IteratorSpec;

use crate::config::{spec_default_config, ParseConfig};
use crate::error::Error;
use crate::parser::effect::{effect_result, parse_effect, strings_view};
use crate::parser::efkefc::extract_chunks;
use crate::parser::spec_load_efkefc;
use crate::types::effect::Effect;

verus! {

// ---------------------------------------------------------------- archive access

/// What reading the entry `name` of the zip archive `archive` gives: the
/// entry's bytes; `Err(None)` when the archive has no such entry;
/// `Err(Some(message))` when the archive or the entry cannot be read.
pub uninterp spec fn zip_entry(archive: Seq<u8>, name: Seq<char>) -> Result<Seq<u8>, Option<Seq<char>>>;

/// Read the entry `name` of the zip archive held in `archive`, with
/// `zip::ZipArchive::new` over a `std::io::Cursor`, `ZipArchive::by_name` and
/// `Read::read_to_end`. A `ZipError::FileNotFound` from the lookup gives
/// `Err(None)`; any other error gives its text. The contract claims only that
/// the outcome depends on the archive bytes and the name alone, and names it
/// [`zip_entry`]; what the zip format yields is the zip crate's and is not
/// stated here.
#[verifier::external_body]
fn read_zip_entry(archive: &[u8], name: &str) -> (res: Result<Vec<u8>, Option<String>>)
    ensures
        match res {
            Ok(v) => zip_entry(archive@, name@) == Ok::<Seq<u8>, Option<Seq<char>>>(v@),
            Err(None) => zip_entry(archive@, name@) == Err::<Seq<u8>, Option<Seq<char>>>(None),
            Err(Some(m)) => zip_entry(archive@, name@) == Err::<Seq<u8>, Option<Seq<char>>>(Some(m@)),
        },
{
    let mut zip = match zip::ZipArchive::new(std::io::Cursor::new(archive)) {
        Ok(z) => z,
        Err(e) => return Err(Some(e.to_string())),
    };
    let mut entry = match zip.by_name(name) {
        Ok(e) => e,
        Err(zip::result::ZipError::FileNotFound) => return Err(None),
        Err(e) => return Err(Some(e.to_string())),
    };
    let mut buf: Vec<u8> = Vec::new();
    match std::io::Read::read_to_end(&mut entry, &mut buf) {
        Ok(_) => Ok(buf),
        Err(e) => Err(Some(e.to_string())),
    }
}

/// Whether `s` contains the character `c`.
fn str_contains_char(s: &str, c: char) -> (b: bool)
    ensures
        b == s@.contains(c),
{
    broadcast use vstd::string::axiom_spec_iter, vstd::string::next_postcondition;

    let mut chars = s.chars();
    let ghost mut seen: int = 0;
    loop
        invariant
            chars.obeys_prophetic_iter_laws(),
            0 <= seen <= s@.len(),
            chars.remaining() == s@.skip(seen),
            !s@.take(seen).contains(c),
        decreases s@.len() - seen,
    {
        match chars.next() {
            Some(x) => {
                proof {
                    assert(x == s@[seen]);
                }
                if x == c {
                    return true;
                }
                proof {
                    assert(s@.take(seen + 1) =~= s@.take(seen).push(x));
                    assert(chars.remaining() =~= s@.skip(seen + 1));
                    seen = seen + 1;
                }
            },
            None => {
                proof {
                    assert(s@.take(seen) =~= s@);
                }
                return false;
            },
        }
    }
}

// ---------------------------------------------------------------- types

/// Type of a file bundled inside an `.efkpkg`.
#[derive(Clone, Copy, Debug, PartialEq, Eq, Structural)]
pub enum EfkPkgFileType {
    /// An `.efkefc` effect.
    Effect,
    /// A texture (image bytes as exported, typically PNG/DDS).
    Texture,
    /// An audio file.
    Sound,
    /// An `.efkmodel` model.
    Model,
    /// An `.efkmat` material.
    Material,
    /// A NURBS curve file.
    Curve,
}

/// A single file entry extracted from an `.efkpkg`.
#[derive(Debug, Clone)]
pub struct EfkPkgFile {
    /// What kind of file this is.
    pub file_type: EfkPkgFileType,
    /// On-disk relative path at export time (e.g. `"textures/foo.png"`).
    pub relative_path: String,
    /// Content-hash name: the key used inside the zip and the string the
    /// bundled effect's resource fields reference.
    pub hash_name: String,
    /// Raw undecoded bytes.
    pub data: Vec<u8>,
    /// Hash names of files this entry depends on (e.g. a material's textures).
    pub dependencies: Vec<String>,
}

/// The model of a bundled file.
pub struct SpecPkgFile {
    /// What kind of file this is.
    pub file_type: EfkPkgFileType,
    /// Relative path at export time.
    pub relative_path: Seq<char>,
    /// Content-hash name.
    pub hash_name: Seq<char>,
    /// Raw bytes.
    pub data: Seq<u8>,
    /// Hash names of the files this one depends on.
    pub dependencies: Seq<Seq<char>>,
}

impl View for EfkPkgFile {
    type V = SpecPkgFile;

    open spec fn view(&self) -> SpecPkgFile {
        SpecPkgFile {
            file_type: self.file_type,
            relative_path: self.relative_path@,
            hash_name: self.hash_name@,
            data: self.data@,
            dependencies: strings_view(self.dependencies@),
        }
    }
}

/// The models of a list of bundled files.
pub open spec fn files_view(v: Seq<EfkPkgFile>) -> Seq<SpecPkgFile> {
    v.map_values(|f: EfkPkgFile| f@)
}

/// A parsed `.efkpkg` package held entirely in memory.
#[derive(Debug, Clone)]
pub struct EfkPkg {
    /// Editor version that produced the package.
    pub version: String,
    /// The primary bundled effect (the first `Effect`-typed entry).
    pub effect: EfkPkgFile,
    /// Additional effects, if the package contains more than one, in order.
    pub extra_effects: Vec<EfkPkgFile>,
    /// All bundled files, in the order of the index. In a package that
    /// [`assemble_package`] made, no two share a hash name
    /// ([`lemma_assembled_package_shape`]); lookups return the first match.
    pub files: Vec<EfkPkgFile>,
}

/// The model of a package.
pub struct SpecPkg {
    /// Editor version.
    pub version: Seq<char>,
    /// The primary effect.
    pub effect: SpecPkgFile,
    /// The other effects.
    pub extra_effects: Seq<SpecPkgFile>,
    /// All bundled files.
    pub files: Seq<SpecPkgFile>,
}

impl View for EfkPkg {
    type V = SpecPkg;

    open spec fn view(&self) -> SpecPkg {
        SpecPkg {
            version: self.version@,
            effect: self.effect@,
            extra_effects: files_view(self.extra_effects@),
            files: files_view(self.files@),
        }
    }
}

/// One file listed in `metafile.json`: its hash name (the key of the listing)
/// and the fields recorded for it.
pub struct MetafileEntry {
    /// The entry's hash name, which is also its name inside the zip.
    pub hash_name: String,
    /// What kind of file it is.
    pub file_type: EfkPkgFileType,
    /// Relative path at export time (empty when the index does not record one).
    pub relative_path: String,
    /// Hash names of the files it depends on.
    pub dependencies: Vec<String>,
}

/// The model of an index entry.
pub struct SpecMetafileEntry {
    /// Hash name.
    pub hash_name: Seq<char>,
    /// Kind of file.
    pub file_type: EfkPkgFileType,
    /// Relative path.
    pub relative_path: Seq<char>,
    /// Dependencies.
    pub dependencies: Seq<Seq<char>>,
}

impl View for MetafileEntry {
    type V = SpecMetafileEntry;

    open spec fn view(&self) -> SpecMetafileEntry {
        SpecMetafileEntry {
            hash_name: self.hash_name@,
            file_type: self.file_type,
            relative_path: self.relative_path@,
            dependencies: strings_view(self.dependencies@),
        }
    }
}

/// The models of a list of index entries.
pub open spec fn meta_view(v: Seq<MetafileEntry>) -> Seq<SpecMetafileEntry> {
    v.map_values(|e: MetafileEntry| e@)
}

// ---------------------------------------------------------------- specification

/// Why a package could not be assembled.
pub enum PackageProblem {
    /// The index lists a name that is not a plain entry name.
    SuspiciousName(Seq<char>),
    /// The index lists an entry that the archive does not hold.
    MissingEntry(Seq<char>),
    /// The archive could not be read; the error's text.
    Zip(Seq<char>),
    /// The index lists no effect.
    NoEffect,
}

/// The name of the index inside the archive.
pub open spec fn metafile_name() -> Seq<char> {
    "metafile.json"@
}

/// The text that precedes a rejected entry name in its error.
pub open spec fn suspicious_prefix() -> Seq<char> {
    "suspicious entry name in metafile: "@
}

/// An entry name that is refused: the index's own name, or one with a path
/// separator in it.
pub open spec fn suspicious_name(n: Seq<char>) -> bool {
    n == metafile_name() || n.contains('/') || n.contains('\\')
}

/// The library error that stands for a problem.
pub open spec fn is_package_error(e: Error, p: PackageProblem) -> bool {
    match p {
        PackageProblem::SuspiciousName(n) => e matches Error::ZipError(s) && s@ == suspicious_prefix() + n,
        PackageProblem::MissingEntry(n) => e matches Error::MissingEntry(s) && s@ == n,
        PackageProblem::Zip(m) => e matches Error::ZipError(s) && s@ == m,
        PackageProblem::NoEffect => e == Error::NoEffectInPackage,
    }
}

/// The bundled file an index entry gives, read from the archive.
pub open spec fn entry_outcome(archive: Seq<u8>, e: SpecMetafileEntry) -> Result<SpecPkgFile, PackageProblem> {
    if suspicious_name(e.hash_name) {
        Err(PackageProblem::SuspiciousName(e.hash_name))
    } else {
        match zip_entry(archive, e.hash_name) {
            Ok(bytes) => Ok(
                SpecPkgFile {
                    file_type: e.file_type,
                    relative_path: e.relative_path,
                    hash_name: e.hash_name,
                    data: bytes,
                    dependencies: e.dependencies,
                },
            ),
            Err(None) => Err(PackageProblem::MissingEntry(e.hash_name)),
            Err(Some(m)) => Err(PackageProblem::Zip(m)),
        }
    }
}

/// The files that the index entries give, in order; the first entry that
/// fails decides the outcome.
pub open spec fn spec_files(archive: Seq<u8>, entries: Seq<SpecMetafileEntry>) -> Result<Seq<SpecPkgFile>, PackageProblem>
    decreases entries.len(),
{
    if entries.len() == 0 {
        Ok(seq![])
    } else {
        match spec_files(archive, entries.drop_last()) {
            Err(p) => Err(p),
            Ok(fs) => match entry_outcome(archive, entries.last()) {
                Err(p) => Err(p),
                Ok(f) => Ok(fs.push(f)),
            },
        }
    }
}

/// Whether a file is an effect.
pub open spec fn is_effect_file() -> spec_fn(SpecPkgFile) -> bool {
    |f: SpecPkgFile| f.file_type == EfkPkgFileType::Effect
}

/// The package that an archive and its index give: all listed files, the first
/// effect among them as the primary effect and the other effects as extras.
pub open spec fn spec_assemble(archive: Seq<u8>, version: Seq<char>, entries: Seq<SpecMetafileEntry>) -> Result<SpecPkg, PackageProblem> {
    match spec_files(archive, entries) {
        Err(p) => Err(p),
        Ok(files) => spec_package_from_files(version, files),
    }
}

/// The package that a list of bundled files gives: all of them, the first
/// effect among them as the primary effect and the other effects as extras;
/// no effect is a problem.
pub open spec fn spec_package_from_files(version: Seq<char>, files: Seq<SpecPkgFile>) -> Result<SpecPkg, PackageProblem> {
    let effects = files.filter(is_effect_file());
    if effects.len() == 0 {
        Err(PackageProblem::NoEffect)
    } else {
        Ok(SpecPkg { version, effect: effects[0], extra_effects: effects.drop_first(), files })
    }
}

/// No two index entries share a hash name.
pub open spec fn distinct_entry_names(entries: Seq<SpecMetafileEntry>) -> bool {
    forall|i: int, j: int| 0 <= i < j < entries.len() ==> entries[i].hash_name != entries[j].hash_name
}

/// No two bundled files share a hash name.
pub open spec fn distinct_hash_names(files: Seq<SpecPkgFile>) -> bool {
    forall|i: int, j: int| 0 <= i < j < files.len() ==> files[i].hash_name != files[j].hash_name
}

/// The index bytes once a leading UTF-8 byte order mark is removed.
pub open spec fn strip_bom(b: Seq<u8>) -> Seq<u8> {
    if b.len() >= 3 && b[0] == 0xEF && b[1] == 0xBB && b[2] == 0xBF {
        b.subrange(3, b.len() as int)
    } else {
        b
    }
}

// ---------------------------------------------------------------- reading

/// Read `metafile.json` out of a package archive, without a leading UTF-8 byte
/// order mark (the editor writes one; JSON parsers refuse it).
///
/// Fails with [`Error::MissingMetafile`] when the archive has no such entry and
/// with [`Error::ZipError`] when the archive cannot be read.
pub fn read_metafile_bytes(data: &[u8]) -> (res: Result<Vec<u8>, Error>)
    ensures
        match zip_entry(data@, "metafile.json"@) {
            Ok(b) => res matches Ok(v) && v@ == strip_bom(b),
            Err(None) => res == Err::<Vec<u8>, Error>(Error::MissingMetafile),
            Err(Some(m)) => res matches Err(Error::ZipError(s)) && s@ == m,
        },
{
    let buf = match read_zip_entry(data, "metafile.json") {
        Ok(b) => b,
        Err(None) => return Err(Error::MissingMetafile),
        Err(Some(m)) => return Err(Error::ZipError(m)),
    };
    if buf.len() >= 3 && buf[0] == 0xEF && buf[1] == 0xBB && buf[2] == 0xBF {
        let body = vstd::slice::slice_subrange(buf.as_slice(), 3, buf.len());
        Ok(vstd::slice::slice_to_vec(body))
    } else {
        Ok(buf)
    }
}

/// A copy of a list of strings.
fn copy_strings(v: &Vec<String>) -> (r: Vec<String>)
    ensures
        strings_view(r@) == strings_view(v@),
{
    let mut r: Vec<String> = Vec::new();
    let mut i: usize = 0;
    while i < v.len()
        invariant
            i <= v.len(),
            strings_view(r@) == strings_view(v@).take(i as int),
        decreases v.len() - i,
    {
        let ghost before = r@;
        r.push(v[i].clone());
        proof {
            assert(strings_view(r@) =~= strings_view(before).push(v@[i as int]@));
            assert(strings_view(v@).take(i + 1) =~= strings_view(v@).take(i as int).push(v@[i as int]@));
        }
        i = i + 1;
    }
    proof {
        assert(strings_view(v@).take(v@.len() as int) =~= strings_view(v@));
    }
    r
}

/// A copy of a bundled file.
fn copy_file(f: &EfkPkgFile) -> (r: EfkPkgFile)
    ensures
        r@ == f@,
{
    EfkPkgFile {
        file_type: f.file_type,
        relative_path: f.relative_path.clone(),
        hash_name: f.hash_name.clone(),
        data: vstd::slice::slice_to_vec(f.data.as_slice()),
        dependencies: copy_strings(&f.dependencies),
    }
}

/// Assemble a package from its archive and its decoded index.
///
/// The entries are taken in the given order. Each name is checked (the index's
/// own name and names with `/` or `\` are refused with [`Error::ZipError`]),
/// then the entry is read from the archive ([`Error::MissingEntry`] when it is
/// absent, [`Error::ZipError`] when it cannot be read). The first effect among
/// the files becomes the primary effect, the other effects are kept as extras;
/// a package without an effect is refused with [`Error::NoEffectInPackage`].
pub fn assemble_package(data: &[u8], version: String, entries: Vec<MetafileEntry>) -> (res: Result<EfkPkg, Error>)
    requires
        distinct_entry_names(meta_view(entries@)),
    ensures
        match (res, spec_assemble(data@, version@, meta_view(entries@))) {
            (Ok(pkg), Ok(sp)) => pkg@ == sp,
            (Err(e), Err(p)) => is_package_error(e, p),
            _ => false,
        },
{
    let ghost mv = meta_view(entries@);
    let meta_name = "metafile.json".to_owned();
    let mut files: Vec<EfkPkgFile> = Vec::new();
    let mut i: usize = 0;
    proof {
        assert(mv.take(0) =~= Seq::<SpecMetafileEntry>::empty());
        assert(files_view(files@) =~= Seq::<SpecPkgFile>::empty());
    }
    while i < entries.len()
        invariant
            mv == meta_view(entries@),
            meta_name@ == metafile_name(),
            i <= entries.len(),
            spec_files(data@, mv.take(i as int)) == Ok::<Seq<SpecPkgFile>, PackageProblem>(files_view(files@)),
        decreases entries.len() - i,
    {
        let entry = &entries[i];
        let name = &entry.hash_name;
        proof {
            assert(mv.take(i + 1).drop_last() =~= mv.take(i as int));
            assert(mv.take(i + 1).last() == entry@);
        }
        if *name == meta_name || str_contains_char(name.as_str(), '/') || str_contains_char(name.as_str(), '\\') {
            let mut msg = "suspicious entry name in metafile: ".to_owned();
            msg.append(name.as_str());
            proof {
                lemma_files_err_extends(data@, mv, i as int + 1, PackageProblem::SuspiciousName(name@));
            }
            return Err(Error::ZipError(msg));
        }
        let bytes = match read_zip_entry(data, name.as_str()) {
            Ok(b) => b,
            Err(None) => {
                proof {
                    lemma_files_err_extends(data@, mv, i as int + 1, PackageProblem::MissingEntry(name@));
                }
                return Err(Error::MissingEntry(name.clone()));
            },
            Err(Some(m)) => {
                proof {
                    lemma_files_err_extends(data@, mv, i as int + 1, PackageProblem::Zip(m@));
                }
                return Err(Error::ZipError(m));
            },
        };
        let ghost before = files@;
        files.push(
            EfkPkgFile {
                file_type: entry.file_type,
                relative_path: entry.relative_path.clone(),
                hash_name: name.clone(),
                data: bytes,
                dependencies: copy_strings(&entry.dependencies),
            },
        );
        proof {
            assert(files_view(files@) =~= files_view(before).push(files@.last()@));
        }
        i = i + 1;
    }
    proof {
        assert(mv.take(entries@.len() as int) =~= mv);
    }
    package_from_files(version, files)
}

/// Make a package of bundled files that were already read: all of them, in the
/// given order, with the first effect among them as the primary effect and the
/// other effects as extras. Without an effect it fails with
/// [`Error::NoEffectInPackage`].
pub fn package_from_files(version: String, files: Vec<EfkPkgFile>) -> (res: Result<EfkPkg, Error>)
    ensures
        match (res, spec_package_from_files(version@, files_view(files@))) {
            (Ok(pkg), Ok(sp)) => pkg@ == sp,
            (Err(e), Err(p)) => is_package_error(e, p),
            _ => false,
        },
{
    let ghost fv = files_view(files@);
    let mut effects: Vec<EfkPkgFile> = Vec::new();
    let mut j: usize = 0;
    proof {
        assert(fv.take(0) =~= Seq::<SpecPkgFile>::empty());
        assert(files_view(effects@) =~= Seq::<SpecPkgFile>::empty());
        reveal(Seq::filter);
    }
    while j < files.len()
        invariant
            fv == files_view(files@),
            j <= files.len(),
            files_view(effects@) == fv.take(j as int).filter(is_effect_file()),
        decreases files.len() - j,
    {
        proof {
            assert(fv.take(j + 1).drop_last() =~= fv.take(j as int));
            assert(fv.take(j + 1).last() == fv[j as int]);
            reveal(Seq::filter);
        }
        if files[j].file_type == EfkPkgFileType::Effect {
            let ghost before = effects@;
            effects.push(copy_file(&files[j]));
            proof {
                assert(files_view(effects@) =~= files_view(before).push(fv[j as int]));
            }
        }
        j = j + 1;
    }
    proof {
        assert(fv.take(files@.len() as int) =~= fv);
    }
    if effects.len() == 0 {
        return Err(Error::NoEffectInPackage);
    }
    let ghost ev = files_view(effects@);
    let effect = effects.remove(0);
    proof {
        assert(files_view(effects@) =~= ev.drop_first());
    }
    Ok(EfkPkg { version, effect, extra_effects: effects, files })
}

/// Once a prefix of the entries fails with `p`, so does every longer prefix.
proof fn lemma_files_err_extends(archive: Seq<u8>, entries: Seq<SpecMetafileEntry>, n: int, p: PackageProblem)
    requires
        0 <= n <= entries.len(),
        spec_files(archive, entries.take(n)) == Err::<Seq<SpecPkgFile>, PackageProblem>(p),
    ensures
        spec_files(archive, entries) == Err::<Seq<SpecPkgFile>, PackageProblem>(p),
    decreases entries.len() - n,
{
    if n < entries.len() {
        assert(entries.take(n + 1).drop_last() =~= entries.take(n));
        lemma_files_err_extends(archive, entries, n + 1, p);
    } else {
        assert(entries.take(n) =~= entries);
    }
}

/// The files that the index entries give keep the entries' hash names, one
/// file per entry.
proof fn lemma_files_keep_names(archive: Seq<u8>, entries: Seq<SpecMetafileEntry>)
    requires
        spec_files(archive, entries) is Ok,
    ensures
        spec_files(archive, entries)->Ok_0.len() == entries.len(),
        forall|i: int| 0 <= i < entries.len() ==> (#[trigger] spec_files(archive, entries)->Ok_0[i]).hash_name == entries[i].hash_name,
    decreases entries.len(),
{
    if entries.len() > 0 {
        lemma_files_keep_names(archive, entries.drop_last());
    }
}

/// Law: a package assembled from an index whose entries have distinct names
/// keeps every file under a distinct hash name, and its primary effect and each
/// of its extra effects is an `Effect`-typed file among the package's files.
pub proof fn lemma_assembled_package_shape(archive: Seq<u8>, version: Seq<char>, entries: Seq<SpecMetafileEntry>)
    requires
        distinct_entry_names(entries),
        spec_assemble(archive, version, entries) is Ok,
    ensures
        ({
            let pkg = spec_assemble(archive, version, entries)->Ok_0;
            &&& distinct_hash_names(pkg.files)
            &&& is_effect_file()(pkg.effect)
            &&& pkg.files.contains(pkg.effect)
            &&& forall|i: int| 0 <= i < pkg.extra_effects.len() ==> is_effect_file()(#[trigger] pkg.extra_effects[i])
                && pkg.files.contains(pkg.extra_effects[i])
        }),
{
    let files = spec_files(archive, entries)->Ok_0;
    lemma_files_keep_names(archive, entries);
    let effects = files.filter(is_effect_file());
    files.lemma_filter_pred(is_effect_file(), 0);
    assert(effects.contains(effects[0]));
    files.lemma_filter_contains_rev(is_effect_file(), effects[0]);
    let pkg = spec_assemble(archive, version, entries)->Ok_0;
    assert forall|i: int| 0 <= i < pkg.extra_effects.len() implies is_effect_file()(#[trigger] pkg.extra_effects[i])
        && pkg.files.contains(pkg.extra_effects[i]) by {
        files.lemma_filter_pred(is_effect_file(), i + 1);
        assert(effects.contains(effects[i + 1]));
        files.lemma_filter_contains_rev(is_effect_file(), effects[i + 1]);
    }
}

/// Parse the effect a bundled `.efkefc` container holds.
fn parse_bundled_effect(data: &[u8], config: &ParseConfig) -> (res: Result<Effect, Error>)
    ensures
        effect_result(res) == spec_load_efkefc(data@, *config),
{
    let chunks = extract_chunks(data)?;
    parse_effect(chunks.bin, config)
}

impl EfkPkg {
    /// Look up a file by its hash name (the form embedded in the effect's
    /// resource references).
    pub fn get(&self, hash_name: &str) -> (r: Option<&EfkPkgFile>)
        ensures
            match r {
                Some(f) => exists|i: int|
                    0 <= i < self.files@.len() && *f == self.files@[i] && self.files@[i].hash_name@ == hash_name@
                        && forall|j: int| 0 <= j < i ==> self.files@[j].hash_name@ != hash_name@,
                None => forall|j: int| 0 <= j < self.files@.len() ==> self.files@[j].hash_name@ != hash_name@,
            },
    {
        let wanted = hash_name.to_owned();
        let mut i: usize = 0;
        while i < self.files.len()
            invariant
                wanted@ == hash_name@,
                i <= self.files@.len(),
                forall|j: int| 0 <= j < i ==> self.files@[j].hash_name@ != hash_name@,
            decreases self.files.len() - i,
        {
            if self.files[i].hash_name == wanted {
                return Some(&self.files[i]);
            }
            i = i + 1;
        }
        None
    }

    /// Find a file by its relative path at export time (the first such file in the
    /// package's order). Linear scan; intended for tooling rather than hot paths.
    pub fn find_by_relative_path(&self, path: &str) -> (r: Option<&EfkPkgFile>)
        ensures
            match r {
                Some(f) => exists|i: int|
                    0 <= i < self.files@.len() && *f == self.files@[i] && self.files@[i].relative_path@ == path@
                        && forall|j: int| 0 <= j < i ==> self.files@[j].relative_path@ != path@,
                None => forall|j: int| 0 <= j < self.files@.len() ==> self.files@[j].relative_path@ != path@,
            },
    {
        let wanted = path.to_owned();
        let mut i: usize = 0;
        while i < self.files.len()
            invariant
                wanted@ == path@,
                i <= self.files@.len(),
                forall|j: int| 0 <= j < i ==> self.files@[j].relative_path@ != path@,
            decreases self.files.len() - i,
        {
            if self.files[i].relative_path == wanted {
                return Some(&self.files[i]);
            }
            i = i + 1;
        }
        None
    }

    /// Parse the primary bundled effect using the default strict config.
    pub fn parse_effect(&self) -> (res: Result<Effect, Error>)
        ensures
            effect_result(res) == spec_load_efkefc(self.effect.data@, spec_default_config()),
    {
        self.parse_effect_with_config(&ParseConfig::default())
    }

    /// Parse the primary bundled effect with a custom config.
    pub fn parse_effect_with_config(&self, config: &ParseConfig) -> (res: Result<Effect, Error>)
        ensures
            effect_result(res) == spec_load_efkefc(self.effect.data@, *config),
    {
        parse_bundled_effect(self.effect.data.as_slice(), config)
    }
}

} // verus!
