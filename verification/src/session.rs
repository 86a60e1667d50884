//! The upload session: drives the planned uploads one at a time, records
//! every success so that a later failure can be compensated by deleting
//! exactly what was stored, and assembles the final records once all
//! uploads are done.
use crate::hosting::UploadFileData;
use crate::ids::ModId;
use crate::ids::TeamId;
use crate::ids::VersionId;
use crate::ids::b62_seq;
use crate::ingest::JobKind;
use crate::ingest::RawPart;
use crate::ingest::UploadJob;
use crate::ingest::job_targets_within;
use crate::ingest::lemma_jobs_within;
use crate::ingest::plan_uploads;
use crate::ingest::spec_jobs;
use crate::ingest::spec_unmatched;
use crate::models::FileHash;
use crate::models::Mod;
use crate::models::Team;
use crate::models::Version;
use crate::models::VersionFile;
use crate::models::version_file_wf;
use crate::request::ModCreateData;
use vstd::prelude::*;

verus! {

/// What an uninterpreted markdown rendering returns: the HTML text for a
/// markdown text, a function of the characters alone.
pub uninterp spec fn html_of(markdown: Seq<char>) -> Seq<char>;

/// Relies on pulldown_cmark's Parser and html::push_html: renders a
/// markdown string to HTML, a result that depends on the characters of
/// the input alone.
#[verifier::external_body]
fn render_markdown(markdown: &str) -> (r: String)
    ensures
        r@ == html_of(markdown@),
{
    let parser = pulldown_cmark::Parser::new_ext(markdown, pulldown_cmark::Options::empty());
    let mut out = String::new();
    pulldown_cmark::html::push_html(&mut out, parser);
    out
}

/// The files attached to the declared version at index i: the recorded
/// uploads for that version, in upload order.
pub open spec fn files_for(attached: Seq<(usize, VersionFile)>, i: int) -> Seq<VersionFile>
    decreases attached.len(),
{
    if attached.len() == 0 {
        Seq::empty()
    } else {
        files_for(attached.drop_last(), i) + (if attached.last().0 == i {
            seq![attached.last().1]
        } else {
            Seq::empty()
        })
    }
}

/// Every file attached for a version is one of the recorded pairs, so a
/// well-formedness bound on the pairs carries over to the files.
proof fn lemma_files_for_wf(attached: Seq<(usize, VersionFile)>, i: int)
    requires
        forall|k: int| 0 <= k < attached.len() ==> version_file_wf(attached[k].1),
    ensures
        forall|j: int|
            0 <= j < files_for(attached, i).len() ==> version_file_wf(files_for(attached, i)[j]),
    decreases attached.len(),
{
    if attached.len() > 0 {
        assert(forall|k: int|
            0 <= k < attached.drop_last().len() ==> version_file_wf(attached.drop_last()[k].1));
        lemma_files_for_wf(attached.drop_last(), i);
        let fs = files_for(attached, i);
        let pre = files_for(attached.drop_last(), i);
        assert forall|j: int| 0 <= j < fs.len() implies version_file_wf(fs[j]) by {
            if j < pre.len() {
                assert(fs[j] == pre[j]);
            } else {
                assert(fs[j] == attached.last().1);
                assert(version_file_wf(attached[attached.len() - 1].1));
            }
        }
    }
}

/// One ingestion's upload session. Uploads run strictly in plan order;
/// every success is recorded so that compensation can delete exactly the
/// assets this request stored.
#[derive(Debug)]
pub struct IngestSession {
    /// The id of the mod being created.
    pub mod_id: ModId,
    /// The planned uploads, in order.
    pub jobs: Vec<UploadJob>,
    /// How many jobs are already resolved.
    pub pos: usize,
    /// Every asset stored so far, in upload order.
    pub uploaded: Vec<UploadFileData>,
    /// The package icon URL; empty until an icon upload succeeds.
    pub icon_url: String,
    /// The files attached so far, each tagged with its version index.
    pub attached: Vec<(usize, VersionFile)>,
    /// How many versions the request declares.
    pub n_versions: usize,
}

impl IngestSession {
    /// The session invariant: progress stays within the plan, jobs and
    /// attached files only target declared versions, and every attached
    /// file carries at least one content hash.
    pub open spec fn wf(self) -> bool {
        &&& self.pos <= self.jobs@.len()
        &&& forall|i: int|
            0 <= i < self.jobs@.len() ==> job_targets_within(self.jobs@[i].kind, self.n_versions)
        &&& forall|i: int|
            0 <= i < self.attached@.len() ==> self.attached@[i].0 < self.n_versions
                && version_file_wf(self.attached@[i].1)
    }

    /// Opens a session over a plan. No upload has run, nothing is
    /// recorded, and the icon URL starts empty.
    pub fn new(mod_id: ModId, jobs: Vec<UploadJob>, n_versions: usize) -> (s: IngestSession)
        requires
            forall|i: int| 0 <= i < jobs@.len() ==> job_targets_within(jobs@[i].kind, n_versions),
        ensures
            s.wf(),
            s.mod_id == mod_id,
            s.jobs == jobs,
            s.pos == 0,
            s.uploaded@ =~= Seq::<UploadFileData>::empty(),
            s.icon_url@ =~= Seq::<char>::empty(),
            s.attached@ =~= Seq::<(usize, VersionFile)>::empty(),
            s.n_versions == n_versions,
    {
        IngestSession {
            mod_id,
            jobs,
            pos: 0,
            uploaded: Vec::new(),
            icon_url: String::new(),
            attached: Vec::new(),
            n_versions,
        }
    }

    /// The next upload to perform, or nothing once the plan is done.
    pub fn next_job(&self) -> (r: Option<&UploadJob>)
        ensures
            match r {
                Some(j) => self.pos < self.jobs@.len() && *j == self.jobs@[self.pos as int],
                None => self.pos >= self.jobs@.len(),
            },
    {
        if self.pos < self.jobs.len() {
            Some(&self.jobs[self.pos])
        } else {
            None
        }
    }

    /// Records one successful upload for the current job. An icon success
    /// sets the package icon URL; an archive success attaches one file,
    /// with the backend's sha1 hash, to the job's declared version. The
    /// asset itself is remembered for compensation either way.
    pub fn record_success(&mut self, asset: UploadFileData)
        requires
            old(self).wf(),
            old(self).pos < old(self).jobs@.len(),
        ensures
            final(self).wf(),
            final(self).mod_id == old(self).mod_id,
            final(self).jobs == old(self).jobs,
            final(self).n_versions == old(self).n_versions,
            final(self).pos == old(self).pos + 1,
            final(self).uploaded@ =~= old(self).uploaded@.push(asset),
            match old(self).jobs@[old(self).pos as int].kind {
                JobKind::Icon => {
                    &&& final(self).icon_url@ == "cdnurl/"@ + asset.file_name@
                    &&& final(self).attached@ == old(self).attached@
                },
                JobKind::Archive(k) => {
                    &&& final(self).icon_url == old(self).icon_url
                    &&& final(self).attached@.len() == old(self).attached@.len() + 1
                    &&& final(self).attached@.drop_last() == old(self).attached@
                    &&& final(self).attached@.last().0 == k
                    &&& final(self).attached@.last().1.url@ == "cdnurl/"@ + asset.file_name@
                    &&& final(self).attached@.last().1.hashes@.len() == 1
                    &&& final(self).attached@.last().1.hashes@[0].algorithm@ == "sha1"@
                    &&& final(self).attached@.last().1.hashes@[0].hash@ == asset.content_sha1@
                },
            },
    {
        let njobs = self.jobs.len();
        assert(self.pos < njobs);
        let url = String::from_str("cdnurl/").concat(asset.file_name.as_str());
        match self.jobs[self.pos].kind {
            JobKind::Icon => {
                self.icon_url = url;
            },
            JobKind::Archive(k) => {
                let file = VersionFile {
                    hashes: vec![
                        FileHash {
                            algorithm: String::from_str("sha1"),
                            hash: asset.content_sha1.clone(),
                        },
                    ],
                    url,
                };
                self.attached.push((k, file));
                proof {
                    assert(self.attached@.drop_last() =~= old(self).attached@);
                }
            },
        }
        self.uploaded.push(asset);
        self.pos = self.pos + 1;
    }

    /// Compensation after a failed upload: hands back every asset this
    /// session stored, in upload order, so that each one can be deleted
    /// from the backend before the failure is surfaced.
    pub fn into_compensation(self) -> (r: Vec<UploadFileData>)
        ensures
            r == self.uploaded,
    {
        self.uploaded
    }

    /// Assembles the final records once every upload is done. Builds one
    /// version per declared version, carrying exactly the files attached
    /// to it, and the package record with the rendered body, the icon URL
    /// of this session (empty when no icon part arrived), and the given
    /// version ids.
    pub fn finish(
        self,
        req: ModCreateData,
        team_id: TeamId,
        version_ids: Vec<VersionId>,
        published: u64,
    ) -> (r: (Mod, Vec<Version>))
        requires
            self.wf(),
            self.pos == self.jobs@.len(),
            self.n_versions == req.initial_versions@.len(),
            version_ids@.len() == req.initial_versions@.len(),
        ensures
            mod_assembled(r.0, self.mod_id, team_id, req, self.icon_url@, version_ids@, published),
            r.1@.len() == req.initial_versions@.len(),
            forall|i: int|
                0 <= i < r.1@.len() ==> version_assembled(
                    r.1@[i],
                    version_ids@[i],
                    self.mod_id,
                    req.initial_versions@[i],
                    files_for(self.attached@, i),
                    published,
                ),
            forall|i: int, j: int|
                0 <= i < r.1@.len() && 0 <= j < r.1@[i].files@.len() ==> version_file_wf(
                    r.1@[i].files@[j],
                ),
    {
        let IngestSession { mod_id, jobs: _, pos: _, uploaded: _, icon_url, attached, n_versions } =
            self;
        let ModCreateData {
            mod_name,
            mod_description,
            mod_body,
            initial_versions,
            team_members,
            categories,
            issues_url,
            source_url,
            wiki_url,
        } = req;
        let rendered = render_markdown(mod_body.as_str());
        let n = initial_versions.len();
        // One empty bucket of files per declared version.
        let mut buckets: Vec<Vec<VersionFile>> = Vec::new();
        let mut i: usize = 0;
        while i < n
            invariant
                i <= n,
                buckets@.len() == i,
                forall|v: int| 0 <= v < i ==> buckets@[v]@.len() == 0,
            decreases n - i,
        {
            buckets.push(Vec::new());
            i += 1;
        }
        // Distribute every attached file into its version's bucket.
        let ghost att = attached@;
        let mut attached = attached;
        let mut j: usize = 0;
        let total = attached.len();
        proof {
            assert(att.take(0) =~= Seq::<(usize, VersionFile)>::empty());
            assert forall|v: int| 0 <= v < n implies buckets@[v]@ == files_for(
                att.take(0),
                v,
            ) by {
                assert(buckets@[v]@ =~= files_for(att.take(0), v));
            }
        }
        while attached.len() > 0
            invariant
                total == att.len(),
                j + attached@.len() == att.len(),
                j <= total,
                attached@ =~= att.skip(j as int),
                buckets@.len() == n,
                n == n_versions,
                forall|k: int| 0 <= k < att.len() ==> att[k].0 < n_versions && version_file_wf(
                    att[k].1,
                ),
                forall|v: int| 0 <= v < n ==> buckets@[v]@ == files_for(att.take(j as int), v),
            decreases attached@.len(),
        {
            let (k, file) = attached.remove(0);
            assert((k, file) == att[j as int]);
            let ghost prev_buckets = buckets@;
            let mut bucket = buckets.remove(k);
            bucket.push(file);
            buckets.insert(k, bucket);
            proof {
                assert(buckets@ =~= prev_buckets.update(k as int, bucket));
                let stepped = att.take(j as int + 1);
                assert(stepped.drop_last() =~= att.take(j as int));
                assert(stepped.last() == att[j as int]);
                assert forall|v: int| 0 <= v < n implies buckets@[v]@ == files_for(
                    stepped,
                    v,
                ) by {
                    if v == k as int {
                        assert(bucket@ =~= files_for(att.take(j as int), v) + seq![
                            att[j as int].1,
                        ]);
                    } else {
                        assert(files_for(stepped, v) =~= files_for(att.take(j as int), v));
                    }
                }
            }
            j += 1;
            assert(attached@ =~= att.skip(j as int));
        }
        proof {
            assert(att.take(j as int) =~= att);
        }
        // Keep a copy of the version id list for the package record.
        let mut mod_versions: Vec<VersionId> = Vec::new();
        let mut t: usize = 0;
        while t < version_ids.len()
            invariant
                t <= version_ids@.len(),
                mod_versions@ =~= version_ids@.take(t as int),
            decreases version_ids@.len() - t,
        {
            mod_versions.push(version_ids[t]);
            t += 1;
            assert(mod_versions@ =~= version_ids@.take(t as int));
        }
        assert(mod_versions@ =~= version_ids@);
        // One version record per declared version.
        let ghost ivs0 = initial_versions@;
        let ghost vids0 = version_ids@;
        let mut ivs = initial_versions;
        let mut vids = version_ids;
        let mut versions: Vec<Version> = Vec::new();
        let mut b: usize = 0;
        proof {
            assert(ivs@ =~= ivs0.skip(0));
            assert(vids@ =~= vids0.skip(0));
            assert(buckets@ =~= buckets@.skip(0));
        }
        let ghost buckets0 = buckets@;
        while ivs.len() > 0
            invariant
                b + ivs@.len() == ivs0.len(),
                b <= n,
                n == ivs0.len(),
                vids0.len() == ivs0.len(),
                buckets0.len() == n,
                ivs@ =~= ivs0.skip(b as int),
                vids@ =~= vids0.skip(b as int),
                buckets@ =~= buckets0.skip(b as int),
                forall|v: int| 0 <= v < n ==> buckets0[v]@ == files_for(att, v),
                versions@.len() == b,
                forall|x: int|
                    0 <= x < b ==> version_assembled(
                        versions@[x],
                        vids0[x],
                        mod_id,
                        ivs0[x],
                        files_for(att, x),
                        published,
                    ),
            decreases ivs@.len(),
        {
            let iv = ivs.remove(0);
            let vid = vids.remove(0);
            let files = buckets.remove(0);
            assert(iv == ivs0[b as int]);
            assert(vid == vids0[b as int]);
            assert(files == buckets0[b as int]);
            versions.push(
                Version {
                    id: vid,
                    mod_id,
                    name: iv.version_title,
                    changelog_url: None,
                    date_published: published,
                    downloads: 0,
                    version_type: iv.version_type,
                    files,
                    dependencies: iv.dependencies,
                    game_versions: iv.game_versions,
                },
            );
            b += 1;
            proof {
                assert(ivs@ =~= ivs0.skip(b as int));
                assert(vids@ =~= vids0.skip(b as int));
                assert(buckets@ =~= buckets0.skip(b as int));
            }
        }
        let built = Mod {
            id: mod_id,
            team: Team { id: team_id, members: team_members },
            title: mod_name,
            description: mod_description,
            body_url: rendered,
            icon_url,
            published,
            downloads: 0,
            categories,
            versions: mod_versions,
            issues_url,
            source_url,
            wiki_url,
        };
        proof {
            assert forall|i2: int, j2: int|
                0 <= i2 < versions@.len() && 0 <= j2 < versions@[i2].files@.len()
                implies version_file_wf(versions@[i2].files@[j2]) by {
                assert(version_assembled(
                    versions@[i2],
                    vids0[i2],
                    mod_id,
                    ivs0[i2],
                    files_for(att, i2),
                    published,
                ));
                assert(forall|k: int| 0 <= k < att.len() ==> version_file_wf(att[k].1));
                lemma_files_for_wf(att, i2);
            }
        }
        (built, versions)
    }
}

/// Plans the uploads for the buffered parts and opens the session over
/// them: phase two of ingestion in one step. Also hands back the declared
/// names of archive parts that matched no declared version.
pub fn start_session(mod_id: ModId, req: &ModCreateData, parts: Vec<RawPart>) -> (r: (
    IngestSession,
    Vec<String>,
))
    ensures
        r.0.wf(),
        r.0.mod_id == mod_id,
        r.0.pos == 0,
        r.0.uploaded@ =~= Seq::<UploadFileData>::empty(),
        r.0.icon_url@ =~= Seq::<char>::empty(),
        r.0.attached@ =~= Seq::<(usize, VersionFile)>::empty(),
        r.0.n_versions == req.initial_versions@.len(),
        r.0.jobs@.map_values(|j: UploadJob| j@) == spec_jobs(
            b62_seq(mod_id.0 as nat),
            req.initial_versions@,
            parts@,
        ),
        r.1@.map_values(|s: String| s@) == spec_unmatched(req.initial_versions@, parts@),
{
    let plan = plan_uploads(mod_id, req, parts);
    let n = req.initial_versions.len();
    proof {
        let sj = spec_jobs(b62_seq(mod_id.0 as nat), req.initial_versions@, parts@);
        lemma_jobs_within(b62_seq(mod_id.0 as nat), req.initial_versions@, parts@, n);
        assert forall|i: int| 0 <= i < plan.jobs@.len() implies job_targets_within(
            plan.jobs@[i].kind,
            n,
        ) by {
            assert(plan.jobs@.map_values(|j: UploadJob| j@)[i] == plan.jobs@[i]@);
            assert(sj[i].kind == plan.jobs@[i]@.kind);
        }
    }
    let session = IngestSession::new(mod_id, plan.jobs, n);
    (session, plan.unmatched)
}

/// What assembly promises of the package record: each scalar field comes
/// from the request, the body is the rendered markdown, the icon URL is
/// the session's, and the version id list is the one supplied.
pub open spec fn mod_assembled(
    m: Mod,
    mod_id: ModId,
    team_id: TeamId,
    req: ModCreateData,
    icon_url: Seq<char>,
    version_ids: Seq<VersionId>,
    published: u64,
) -> bool {
    &&& m.id == mod_id
    &&& m.team.id == team_id
    &&& m.team.members == req.team_members
    &&& m.title == req.mod_name
    &&& m.description == req.mod_description
    &&& m.body_url@ == html_of(req.mod_body@)
    &&& m.icon_url@ == icon_url
    &&& m.published == published
    &&& m.downloads == 0
    &&& m.categories == req.categories
    &&& m.versions@ == version_ids
    &&& m.issues_url == req.issues_url
    &&& m.source_url == req.source_url
    &&& m.wiki_url == req.wiki_url
}

/// What assembly promises of one version record: identity and scalar
/// fields from its declared version, a fresh download counter, and
/// exactly the files attached for its index.
pub open spec fn version_assembled(
    v: Version,
    vid: VersionId,
    mod_id: ModId,
    iv: crate::request::InitialVersionData,
    files: Seq<VersionFile>,
    published: u64,
) -> bool {
    &&& v.id == vid
    &&& v.mod_id == mod_id
    &&& v.name == iv.version_title
    &&& v.changelog_url is None
    &&& v.date_published == published
    &&& v.downloads == 0
    &&& v.version_type == iv.version_type
    &&& v.files@ == files
    &&& v.dependencies == iv.dependencies
    &&& v.game_versions == iv.game_versions
}

} // verus!
