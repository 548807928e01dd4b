//! The deployment manifest: where it lies, and what the pipeline reads of it.

use vstd::prelude::*;

verus! {

/// Why no deployment manifest could be used.
#[derive(Debug, Clone)]
pub enum Error {
    /// No file of the source tree has the name of a manifest.
    NaisYamlNotFound,
    /// The root of the source tree could not be listed; the text says why.
    FileSystem(String),
    /// The manifest could not be read.
    ReadFile { err: String, path: String },
    /// The manifest does not hold what is read of it; the text says why.
    Deserialize(String),
}

/// An `Error` in the terms of contracts.
pub enum ErrorView {
    NaisYamlNotFound,
    FileSystem(Seq<char>),
    ReadFile { err: Seq<char>, path: Seq<char> },
    Deserialize(Seq<char>),
}

impl View for Error {
    type V = ErrorView;

    open spec fn view(&self) -> ErrorView {
        match self {
            Error::NaisYamlNotFound => ErrorView::NaisYamlNotFound,
            Error::FileSystem(err) => ErrorView::FileSystem(err@),
            Error::ReadFile { err, path } => ErrorView::ReadFile { err: err@, path: path@ },
            Error::Deserialize(err) => ErrorView::Deserialize(err@),
        }
    }
}

/// A file that was found in a directory: its name, and its path.
#[derive(Debug, Clone)]
pub struct DirEntry {
    pub file_name: String,
    pub path: String,
}

/// The file names under which a deployment manifest is looked for.
pub open spec fn candidates() -> Seq<Seq<char>> {
    seq![
        ".nais.yaml"@,
        ".nais.yml"@,
        ".naiserator.yaml"@,
        ".naiserator.yml"@,
        "dev-fss.yaml"@,
        "dev-fss.yml"@,
        "dev-gcp.yaml"@,
        "dev-gcp.yml"@,
        "dev.yml"@,
        "nais.yaml"@,
        "nais.yml"@,
        "naiserator.yaml"@,
        "naiserator.yml"@,
        "prod-fss.yaml"@,
        "prod-fss.yml"@,
        "prod-gcp.yaml"@,
        "prod-gcp.yml"@,
        "prod.yml"@,
    ]
}

/// Whether a file of this name may be a deployment manifest.
pub open spec fn is_candidate(file_name: Seq<char>) -> bool {
    candidates().contains(file_name)
}

/// The file names under which a deployment manifest is looked for.
pub fn candidate_names() -> (r: Vec<&'static str>)
    ensures
        r@.map_values(|s: &'static str| s@) == candidates(),
{
    let r = vec![
        ".nais.yaml",
        ".nais.yml",
        ".naiserator.yaml",
        ".naiserator.yml",
        "dev-fss.yaml",
        "dev-fss.yml",
        "dev-gcp.yaml",
        "dev-gcp.yml",
        "dev.yml",
        "nais.yaml",
        "nais.yml",
        "naiserator.yaml",
        "naiserator.yml",
        "prod-fss.yaml",
        "prod-fss.yml",
        "prod-gcp.yaml",
        "prod-gcp.yml",
        "prod.yml",
    ];
    assert(r@.map_values(|s: &'static str| s@) =~= candidates());
    r
}

/// Whether a file of this name may be a deployment manifest.
pub fn has_candidate_name(file_name: &str) -> (r: bool)
    ensures
        r == is_candidate(file_name@),
{
    let names = candidate_names();
    let ghost all = names@.map_values(|s: &'static str| s@);
    let mut k: usize = 0;
    while k < names.len()
        invariant
            k <= names.len(),
            all == names@.map_values(|s: &'static str| s@),
            all == candidates(),
            forall|i: int| 0 <= i < k ==> all[i] != file_name@,
        decreases names.len() - k,
    {
        if crate::text::same(names[k], file_name) {
            assert(all[k as int] == file_name@);
            return true;
        }
        k += 1;
    }
    false
}

/// The place of the first file that has the name of a manifest.
pub open spec fn first_candidate(files: Seq<DirEntry>) -> Option<int>
    decreases files.len(),
{
    if files.len() == 0 {
        None
    } else if is_candidate(files[0].file_name@) {
        Some(0)
    } else {
        match first_candidate(files.drop_first()) {
            Some(i) => Some(i + 1),
            None => None,
        }
    }
}

/// Where no file before place `k` has the name of a manifest, the first
/// that has one is the first from `k` on.
pub proof fn lemma_first_candidate_after(files: Seq<DirEntry>, k: int)
    requires
        0 <= k <= files.len(),
        forall|i: int| 0 <= i < k ==> !is_candidate(#[trigger] files[i].file_name@),
    ensures
        first_candidate(files) == (match first_candidate(files.skip(k)) {
            Some(i) => Some(i + k),
            None => None,
        }),
    decreases k,
{
    if k == 0 {
        assert(files.skip(0) =~= files);
    } else {
        let rest = files.drop_first();
        assert(!is_candidate(files[0].file_name@));
        assert forall|i: int| 0 <= i < k - 1 implies !is_candidate(
            #[trigger] rest[i].file_name@,
        ) by {
            assert(rest[i] == files[i + 1]);
        }
        lemma_first_candidate_after(rest, k - 1);
        assert(rest.skip(k - 1) =~= files.skip(k));
    }
}

/// The files that are searched: those of the root, then those of the
/// `.nais` directory, where that could be listed.
pub open spec fn searched(root: Seq<DirEntry>, nais: Result<Vec<DirEntry>, String>) -> Seq<
    DirEntry,
> {
    match nais {
        Ok(files) => root + files@,
        Err(_) => root,
    }
}

/// The path of the deployment manifest: that of the first file with the
/// name of a manifest, among the files of the root and then those of the
/// `.nais` directory.
pub open spec fn detected(
    root: Result<Vec<DirEntry>, String>,
    nais: Result<Vec<DirEntry>, String>,
) -> Result<Seq<char>, ErrorView> {
    match root {
        Err(err) => Err(ErrorView::FileSystem(err@)),
        Ok(files) => {
            let all = searched(files@, nais);
            match first_candidate(all) {
                Some(i) => Ok(all[i].path@),
                None => Err(ErrorView::NaisYamlNotFound),
            }
        },
    }
}

/// The place in `files` of the first file with the name of a manifest.
fn find_candidate(files: &Vec<DirEntry>) -> (r: Option<usize>)
    ensures
        match r {
            Some(i) => first_candidate(files@) == Some(i as int) && i < files.len(),
            None => first_candidate(files@) is None,
        },
{
    let mut k: usize = 0;
    while k < files.len()
        invariant
            k <= files.len(),
            forall|i: int| 0 <= i < k ==> !is_candidate(#[trigger] files@[i].file_name@),
        decreases files.len() - k,
    {
        proof {
            lemma_first_candidate_after(files@, k as int);
            assert(files@.skip(k as int)[0] == files@[k as int]);
        }
        if has_candidate_name(files[k].file_name.as_str()) {
            return Some(k);
        }
        k += 1;
    }
    proof {
        lemma_first_candidate_after(files@, k as int);
        assert(files@.skip(k as int) =~= Seq::<DirEntry>::empty());
    }
    None
}

/// The first file with the name of a manifest in `a + b` is that of `a`,
/// or else that of `b`.
pub proof fn lemma_first_candidate_concat(a: Seq<DirEntry>, b: Seq<DirEntry>)
    ensures
        first_candidate(a + b) == (match first_candidate(a) {
            Some(i) => Some(i),
            None => match first_candidate(b) {
                Some(i) => Some(i + a.len()),
                None => None,
            },
        }),
    decreases a.len(),
{
    if a.len() == 0 {
        assert(a + b =~= b);
    } else {
        assert((a + b).drop_first() =~= a.drop_first() + b);
        lemma_first_candidate_concat(a.drop_first(), b);
    }
}

/// Returns the path of the first and best deployment manifest. `root` and
/// `nais` are the files of the root of the source tree and of its `.nais`
/// directory, or the reason why the directory could not be listed. A root
/// that cannot be listed is an error; a `.nais` directory that cannot be
/// listed holds no files.
pub fn detect_nais_yaml(
    root: &Result<Vec<DirEntry>, String>,
    nais: &Result<Vec<DirEntry>, String>,
) -> (r: Result<String, Error>)
    ensures
        match r {
            Ok(path) => detected(*root, *nais) == Ok::<Seq<char>, ErrorView>(path@),
            Err(err) => detected(*root, *nais) == Err::<Seq<char>, ErrorView>(err@),
        },
{
    let root_dir_files = match root {
        Ok(files) => files,
        Err(err) => return Err(Error::FileSystem(err.clone())),
    };
    proof {
        if nais is Ok {
            lemma_first_candidate_concat(root_dir_files@, nais->Ok_0@);
        }
    }
    match find_candidate(root_dir_files) {
        Some(i) => return Ok(root_dir_files[i].path.clone()),
        None => {},
    }
    match nais {
        Ok(nais_files) => match find_candidate(nais_files) {
            Some(i) => Ok(nais_files[i].path.clone()),
            None => Err(Error::NaisYamlNotFound),
        },
        Err(_) => Err(Error::NaisYamlNotFound),
    }
}

/// The part of a resource that names it.
#[derive(Debug, Clone)]
pub struct Metadata {
    pub name: String,
    pub namespace: String,
}

/// A Kubernetes resource, as far as the pipeline reads it.
#[derive(Debug, Clone)]
pub struct KubernetesResource {
    pub metadata: Metadata,
}

/// What the pipeline reads of a deployment manifest.
#[derive(Debug, Clone)]
pub struct NaisYaml {
    pub team: String,
    pub app: String,
}

impl NaisYaml {
    /// What the pipeline reads of a resource: its namespace is the team,
    /// its name the application.
    pub fn from_resource(resource: KubernetesResource) -> (r: NaisYaml)
        ensures
            r.team@ == resource.metadata.namespace@,
            r.app@ == resource.metadata.name@,
    {
        NaisYaml { team: resource.metadata.namespace, app: resource.metadata.name }
    }
}

impl ErrorView {
    /// The message shown to the operator.
    pub open spec fn message(self) -> Seq<char> {
        match self {
            ErrorView::NaisYamlNotFound => "no suitable file found"@,
            ErrorView::FileSystem(err) => "scan file system: "@ + err,
            ErrorView::ReadFile { err, path } => "read "@ + path + ": "@ + err,
            ErrorView::Deserialize(err) => "deserialize: "@ + err,
        }
    }
}

impl Error {
    /// The message shown to the operator.
    pub fn to_string(&self) -> (r: String)
        ensures
            r@ == self@.message(),
    {
        match self {
            Error::NaisYamlNotFound => "no suitable file found".to_owned(),
            Error::FileSystem(err) => crate::text::join("scan file system: ", err.as_str()),
            Error::ReadFile { err, path } => {
                let mut out = "read ".to_owned();
                out.append(path.as_str());
                out.append(": ");
                out.append(err.as_str());
                out
            },
            Error::Deserialize(err) => crate::text::join("deserialize: ", err.as_str()),
        }
    }
}

} // verus!
