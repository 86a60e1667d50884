//! Two-phase multipart ingestion: every part of the request body is
//! buffered first, then classified and correlated against the declared
//! versions, so that the decisions do not depend on arrival order.
use crate::ids::ModId;
use crate::ids::b62_seq;
use crate::ids::encode_base62;
use crate::request::InitialVersionData;
use crate::request::ModCreateData;
use vstd::prelude::*;

verus! {

/// The role of one part of the multipart body, computed once per part.
#[derive(Copy, Clone, PartialEq, Eq, Structural, Debug)]
pub enum PartRole {
    /// The structured metadata slot.
    Metadata,
    /// The package icon slot.
    Icon,
    /// A versioned archive file.
    VersionArchive,
    /// Anything else; contributes nothing to the package.
    Unknown,
}

/// One fully buffered part of the incoming multipart stream.
#[derive(Debug)]
pub struct RawPart {
    /// The declared field name of the part.
    pub field_name: String,
    /// The declared file name, for binary parts.
    pub file_name: Option<String>,
    /// The declared file extension, for binary parts.
    pub extension: Option<String>,
    /// The part's full body.
    pub data: Vec<u8>,
}

/// The role a part plays, decided by its declared field name and
/// extension alone: the "data" field is the metadata slot, the "icon"
/// field the icon slot, and any other part with a "jar" extension is a
/// version archive.
pub open spec fn spec_role(p: RawPart) -> PartRole {
    if p.field_name@ == "data"@ {
        PartRole::Metadata
    } else if p.field_name@ == "icon"@ {
        PartRole::Icon
    } else {
        match p.extension {
            Some(e) => if e@ == "jar"@ {
                PartRole::VersionArchive
            } else {
                PartRole::Unknown
            },
            None => PartRole::Unknown,
        }
    }
}

/// Character-exact string comparison.
fn str_matches(a: &String, b: &str) -> (r: bool)
    ensures
        r == (a@ == b@),
{
    let t = String::from_str(b);
    *a == t
}

/// Classifies one part by its declared field name and extension.
pub fn classify_part(p: &RawPart) -> (r: PartRole)
    ensures
        r == spec_role(*p),
{
    if str_matches(&p.field_name, "data") {
        PartRole::Metadata
    } else if str_matches(&p.field_name, "icon") {
        PartRole::Icon
    } else {
        match &p.extension {
            Some(e) => if str_matches(e, "jar") {
                PartRole::VersionArchive
            } else {
                PartRole::Unknown
            },
            None => PartRole::Unknown,
        }
    }
}

/// Whether a declared version lists this file name.
pub open spec fn declares_file(v: InitialVersionData, name: Seq<char>) -> bool {
    exists|j: int| 0 <= j < v.file_names@.len() && v.file_names@[j]@ == name
}

/// The first declared version whose file-name list holds this name.
pub open spec fn spec_match(versions: Seq<InitialVersionData>, name: Seq<char>) -> Option<int>
    decreases versions.len(),
{
    if versions.len() == 0 {
        None
    } else if declares_file(versions[0], name) {
        Some(0int)
    } else {
        match spec_match(versions.skip(1), name) {
            Some(i) => Some(i + 1),
            None => None,
        }
    }
}

/// No version matches a name exactly when no version declares it.
pub proof fn lemma_spec_match_none(versions: Seq<InitialVersionData>, name: Seq<char>)
    ensures
        spec_match(versions, name) is None <==> (forall|k: int|
            0 <= k < versions.len() ==> !declares_file(versions[k], name)),
    decreases versions.len(),
{
    if versions.len() > 0 {
        lemma_spec_match_none(versions.skip(1), name);
        assert(forall|k: int|
            1 <= k < versions.len() ==> versions.skip(1)[k - 1] == versions[k]);
    }
}

/// Whether this version declares the given file name.
fn declares(v: &InitialVersionData, name: &String) -> (r: bool)
    ensures
        r == declares_file(*v, name@),
{
    let n = v.file_names.len();
    let mut j: usize = 0;
    while j < n
        invariant
            j <= n,
            n == v.file_names@.len(),
            forall|k: int| 0 <= k < j ==> v.file_names@[k]@ != name@,
        decreases n - j,
    {
        if str_matches(&v.file_names[j], name.as_str()) {
            assert(v.file_names@[j as int]@ == name@);
            return true;
        }
        j += 1;
    }
    false
}

/// Searches the declared versions for the first whose file-name list
/// holds this name, as the correlation step of ingestion requires.
pub fn find_version_for_file(versions: &Vec<InitialVersionData>, name: &String) -> (r: Option<
    usize,
>)
    ensures
        match r {
            Some(i) => spec_match(versions@, name@) == Some(i as int),
            None => spec_match(versions@, name@) is None,
        },
{
    let n = versions.len();
    let mut i: usize = 0;
    assert(versions@.skip(0) =~= versions@);
    while i < n
        invariant
            i <= n,
            n == versions@.len(),
            spec_match(versions@, name@) == (match spec_match(versions@.skip(i as int), name@) {
                Some(k) => Some(k + i),
                None => None::<int>,
            }),
        decreases n - i,
    {
        let ghost rest = versions@.skip(i as int);
        assert(rest[0] == versions@[i as int]);
        if declares(&versions[i], name) {
            assert(spec_match(rest, name@) == Some(0int));
            return Some(i);
        }
        assert(rest.skip(1) =~= versions@.skip(i as int + 1));
        i += 1;
    }
    assert(versions@.skip(n as int) =~= Seq::<InitialVersionData>::empty());
    None
}

/// What a planned upload is for: the package icon, or an archive attached
/// to the declared version at this index.
#[derive(Copy, Clone, PartialEq, Eq, Structural, Debug)]
pub enum JobKind {
    /// The package icon.
    Icon,
    /// An archive for the declared version at this index.
    Archive(usize),
}

/// The mathematical content of one planned upload.
pub struct JobSpec {
    /// What the upload is for.
    pub kind: JobKind,
    /// The content type the bytes are sent under.
    pub content_type: Seq<char>,
    /// The remote name the bytes are stored under.
    pub upload_name: Seq<char>,
    /// The bytes to upload.
    pub data: Seq<u8>,
}

/// One planned upload: content type, remote name and the bytes to send.
#[derive(Debug)]
pub struct UploadJob {
    /// What the upload is for.
    pub kind: JobKind,
    /// The content type the bytes are sent under.
    pub content_type: String,
    /// The remote name the bytes are stored under.
    pub upload_name: String,
    /// The bytes to upload.
    pub data: Vec<u8>,
}

impl View for UploadJob {
    type V = JobSpec;

    open spec fn view(&self) -> JobSpec {
        JobSpec {
            kind: self.kind,
            content_type: self.content_type@,
            upload_name: self.upload_name@,
            data: self.data@,
        }
    }
}

/// The remote name an icon is stored under, inside the mod's own folder.
pub open spec fn icon_upload_name(mod62: Seq<char>, file_name: Seq<char>) -> Seq<char> {
    "mods/icons/"@ + mod62 + "/"@ + file_name
}

/// The upload, if any, that one part contributes: an icon part yields an
/// icon upload, an archive part yields an upload for the first declared
/// version listing its file name, and every other part yields nothing.
pub open spec fn spec_job_of(
    mod62: Seq<char>,
    versions: Seq<InitialVersionData>,
    p: RawPart,
) -> Seq<JobSpec> {
    match spec_role(p) {
        PartRole::Metadata => Seq::empty(),
        PartRole::Unknown => Seq::empty(),
        PartRole::Icon => match p.file_name {
            None => Seq::empty(),
            Some(f) => seq![
                JobSpec {
                    kind: JobKind::Icon,
                    content_type: "image/png"@,
                    upload_name: icon_upload_name(mod62, f@),
                    data: p.data@,
                },
            ],
        },
        PartRole::VersionArchive => match p.file_name {
            None => Seq::empty(),
            Some(f) => match spec_match(versions, f@) {
                None => Seq::empty(),
                Some(i) => seq![
                    JobSpec {
                        kind: JobKind::Archive(i as usize),
                        content_type: "application/java-archive"@,
                        upload_name: f@,
                        data: p.data@,
                    },
                ],
            },
        },
    }
}

/// The uploads planned for a buffered part list, in arrival order.
pub open spec fn spec_jobs(
    mod62: Seq<char>,
    versions: Seq<InitialVersionData>,
    parts: Seq<RawPart>,
) -> Seq<JobSpec>
    decreases parts.len(),
{
    if parts.len() == 0 {
        Seq::empty()
    } else {
        spec_jobs(mod62, versions, parts.drop_last()) + spec_job_of(
            mod62,
            versions,
            parts.last(),
        )
    }
}

/// The declared names of archive parts that no declared version lists,
/// in arrival order.
pub open spec fn spec_unmatched(
    versions: Seq<InitialVersionData>,
    parts: Seq<RawPart>,
) -> Seq<Seq<char>>
    decreases parts.len(),
{
    if parts.len() == 0 {
        Seq::empty()
    } else {
        spec_unmatched(versions, parts.drop_last()) + spec_unmatched_of(versions, parts.last())
    }
}

/// The unmatched name, if any, that one part contributes.
pub open spec fn spec_unmatched_of(
    versions: Seq<InitialVersionData>,
    p: RawPart,
) -> Seq<Seq<char>> {
    match spec_role(p) {
        PartRole::VersionArchive => match p.file_name {
            None => Seq::empty(),
            Some(f) => match spec_match(versions, f@) {
                None => seq![f@],
                Some(i) => Seq::empty(),
            },
        },
        PartRole::Metadata => Seq::empty(),
        PartRole::Icon => Seq::empty(),
        PartRole::Unknown => Seq::empty(),
    }
}

/// The upload plan for one create request: the uploads to perform, and
/// the declared names of archive parts that matched no declared version.
/// Under the default policy the latter are reported, not an error.
#[derive(Debug)]
pub struct UploadPlan {
    /// The uploads to perform, in arrival order of their parts.
    pub jobs: Vec<UploadJob>,
    /// The file names of archive parts no declared version lists.
    pub unmatched: Vec<String>,
}

/// Plans the uploads for a buffered part list. Phase two of ingestion:
/// runs only after all parts are buffered, so a binary part is matched to
/// its declared version wherever the metadata part stood in the stream.
pub fn plan_uploads(mod_id: ModId, req: &ModCreateData, parts: Vec<RawPart>) -> (p: UploadPlan)
    ensures
        p.jobs@.map_values(|j: UploadJob| j@) == spec_jobs(
            b62_seq(mod_id.0 as nat),
            req.initial_versions@,
            parts@,
        ),
        p.unmatched@.map_values(|s: String| s@) == spec_unmatched(req.initial_versions@, parts@),
{
    let ghost mod62 = b62_seq(mod_id.0 as nat);
    let ghost all_parts = parts@;
    let m62 = encode_base62(mod_id.0);
    let mut parts = parts;
    let total = parts.len();
    let mut jobs: Vec<UploadJob> = Vec::new();
    let mut unmatched: Vec<String> = Vec::new();
    let ghost versions = req.initial_versions@;
    let mut k: usize = 0;
    assert(all_parts.take(0) =~= Seq::<RawPart>::empty());
    assert(jobs@.map_values(|j: UploadJob| j@) =~= spec_jobs(mod62, versions, all_parts.take(0)));
    assert(unmatched@.map_values(|s: String| s@) =~= spec_unmatched(
        versions,
        all_parts.take(0),
    ));
    while parts.len() > 0
        invariant
            total == all_parts.len(),
            k + parts@.len() == all_parts.len(),
            k <= total,
            parts@ =~= all_parts.skip(k as int),
            m62@ == mod62,
            versions == req.initial_versions@,
            jobs@.map_values(|j: UploadJob| j@) == spec_jobs(mod62, versions, all_parts.take(k as int)),
            unmatched@.map_values(|s: String| s@) == spec_unmatched(
                versions,
                all_parts.take(k as int),
            ),
        decreases parts@.len(),
    {
        let part = parts.remove(0);
        assert(part == all_parts[k as int]);
        let ghost prev_jobs = jobs@;
        let ghost prev_unmatched = unmatched@;
        let role = classify_part(&part);
        match role {
            PartRole::Metadata => {},
            PartRole::Unknown => {},
            PartRole::Icon => {
                match part.file_name {
                    Some(f) => {
                        let name = String::from_str("mods/icons/").concat(m62.as_str()).concat(
                            "/",
                        ).concat(f.as_str());
                        assert(name@ =~= icon_upload_name(mod62, f@));
                        jobs.push(
                            UploadJob {
                                kind: JobKind::Icon,
                                content_type: String::from_str("image/png"),
                                upload_name: name,
                                data: part.data,
                            },
                        );
                    },
                    None => {},
                }
            },
            PartRole::VersionArchive => {
                match part.file_name {
                    Some(f) => {
                        match find_version_for_file(&req.initial_versions, &f) {
                            Some(i) => {
                                jobs.push(
                                    UploadJob {
                                        kind: JobKind::Archive(i),
                                        content_type: String::from_str(
                                            "application/java-archive",
                                        ),
                                        upload_name: f,
                                        data: part.data,
                                    },
                                );
                            },
                            None => {
                                unmatched.push(f);
                            },
                        }
                    },
                    None => {},
                }
            },
        }
        proof {
            let stepped = all_parts.take(k as int + 1);
            assert(stepped.drop_last() =~= all_parts.take(k as int));
            assert(stepped.last() == all_parts[k as int]);
            assert(jobs@.map_values(|j: UploadJob| j@) =~= prev_jobs.map_values(
                |j: UploadJob| j@,
            ) + spec_job_of(mod62, versions, all_parts[k as int]));
            assert(unmatched@.map_values(|s: String| s@) =~= prev_unmatched.map_values(
                |s: String| s@,
            ) + spec_unmatched_of(versions, all_parts[k as int]));
        }
        k += 1;
        assert(parts@ =~= all_parts.skip(k as int));
    }
    assert(all_parts.take(k as int) =~= all_parts);
    UploadPlan { jobs, unmatched }
}

/// Whether a job only targets declared versions below this count.
pub open spec fn job_targets_within(kind: JobKind, n: usize) -> bool {
    match kind {
        JobKind::Icon => true,
        JobKind::Archive(k) => k < n,
    }
}

/// A match result is always the index of a declared version.
pub proof fn lemma_spec_match_bound(versions: Seq<InitialVersionData>, name: Seq<char>)
    ensures
        match spec_match(versions, name) {
            Some(i) => 0 <= i < versions.len(),
            None => true,
        },
    decreases versions.len(),
{
    if versions.len() > 0 && !declares_file(versions[0], name) {
        lemma_spec_match_bound(versions.skip(1), name);
    }
}

/// Every planned job targets a declared version.
pub proof fn lemma_jobs_within(
    mod62: Seq<char>,
    versions: Seq<InitialVersionData>,
    parts: Seq<RawPart>,
    n: usize,
)
    requires
        n == versions.len(),
    ensures
        forall|i: int|
            0 <= i < spec_jobs(mod62, versions, parts).len() ==> job_targets_within(
                spec_jobs(mod62, versions, parts)[i].kind,
                n,
            ),
    decreases parts.len(),
{
    if parts.len() > 0 {
        lemma_jobs_within(mod62, versions, parts.drop_last(), n);
        let p = parts.last();
        match p.file_name {
            Some(f) => {
                lemma_spec_match_bound(versions, f@);
            },
            None => {},
        }
    }
}

/// A part that contributes no upload can stand anywhere in the stream
/// without changing the plan.
proof fn lemma_jobs_insert_inert(
    mod62: Seq<char>,
    versions: Seq<InitialVersionData>,
    parts: Seq<RawPart>,
    i: int,
    p: RawPart,
)
    requires
        0 <= i <= parts.len(),
        spec_job_of(mod62, versions, p).len() == 0,
    ensures
        spec_jobs(mod62, versions, parts.insert(i, p)) == spec_jobs(mod62, versions, parts),
    decreases parts.len(),
{
    let pi = parts.insert(i, p);
    if i == parts.len() {
        assert(pi.drop_last() =~= parts);
        assert(pi.last() == p);
        assert(spec_jobs(mod62, versions, pi) =~= spec_jobs(mod62, versions, parts)
            + spec_job_of(mod62, versions, p));
        assert(spec_jobs(mod62, versions, parts) + spec_job_of(mod62, versions, p)
            =~= spec_jobs(mod62, versions, parts));
    } else {
        assert(pi.last() == parts.last());
        assert(pi.drop_last() =~= parts.drop_last().insert(i, p));
        lemma_jobs_insert_inert(mod62, versions, parts.drop_last(), i, p);
    }
}

/// The metadata part's position is immaterial: inserting the metadata
/// part anywhere in the buffered stream leaves the upload plan unchanged,
/// so a binary part that arrives before the metadata part is matched
/// exactly as if it had arrived after it.
pub proof fn lemma_metadata_position_immaterial(
    mod62: Seq<char>,
    versions: Seq<InitialVersionData>,
    parts: Seq<RawPart>,
    i: int,
    p: RawPart,
)
    requires
        0 <= i <= parts.len(),
        spec_role(p) == PartRole::Metadata,
    ensures
        spec_jobs(mod62, versions, parts.insert(i, p)) == spec_jobs(mod62, versions, parts),
{
    lemma_jobs_insert_inert(mod62, versions, parts, i, p);
}

/// An archive part whose declared name no declared version lists is
/// attached to no version: wherever it stands in the stream, the upload
/// plan is the one computed without it.
pub proof fn lemma_unmatched_archive_ignored(
    mod62: Seq<char>,
    versions: Seq<InitialVersionData>,
    parts: Seq<RawPart>,
    i: int,
    p: RawPart,
)
    requires
        0 <= i <= parts.len(),
        spec_role(p) == PartRole::VersionArchive,
        forall|k: int| 0 <= k < versions.len() ==> !declares_file(versions[k], p.file_name->0@),
    ensures
        spec_jobs(mod62, versions, parts.insert(i, p)) == spec_jobs(mod62, versions, parts),
{
    match p.file_name {
        Some(f) => {
            lemma_spec_match_none(versions, f@);
        },
        None => {},
    }
    lemma_jobs_insert_inert(mod62, versions, parts, i, p);
}

} // verus!
