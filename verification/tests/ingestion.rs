use labrinth::FileHostingError;
use labrinth::InitialVersionData;
use labrinth::JobKind;
use labrinth::ModCreateData;
use labrinth::ModId;
use labrinth::PartRole;
use labrinth::RawPart;
use labrinth::TeamId;
use labrinth::TeamMember;
use labrinth::UploadFileData;
use labrinth::VersionId;
use labrinth::VersionType;
use labrinth::classify_part;
use labrinth::encode_base62;
use labrinth::find_version_for_file;
use labrinth::start_session;

const SHA1_OF_EMPTY: &str = "da39a3ee5e6b4b0d3255bfef95601890afd80709";

fn version(files: &[&str], title: &str) -> InitialVersionData {
    InitialVersionData {
        file_names: files.iter().map(|f| f.to_string()).collect(),
        version_slug: title.to_lowercase(),
        version_title: title.to_string(),
        version_description: format!("{} description", title),
        dependencies: vec![],
        game_versions: vec![],
        version_type: VersionType::Release,
    }
}

fn request(versions: Vec<InitialVersionData>) -> ModCreateData {
    ModCreateData {
        mod_name: "Test Mod".to_string(),
        mod_description: "A short description".to_string(),
        mod_body: "# Hi".to_string(),
        initial_versions: versions,
        team_members: vec![TeamMember {
            user_id: "user-1".to_string(),
            role: "owner".to_string(),
        }],
        categories: vec!["technology".to_string()],
        issues_url: None,
        source_url: None,
        wiki_url: None,
    }
}

fn metadata_part() -> RawPart {
    RawPart {
        field_name: "data".to_string(),
        file_name: None,
        extension: None,
        data: b"{}".to_vec(),
    }
}

fn jar_part(name: &str) -> RawPart {
    RawPart {
        field_name: name.to_string(),
        file_name: Some(name.to_string()),
        extension: Some("jar".to_string()),
        data: vec![0x50, 0x4b, 0x03, 0x04],
    }
}

fn icon_part(name: &str) -> RawPart {
    RawPart {
        field_name: "icon".to_string(),
        file_name: Some(name.to_string()),
        extension: Some("png".to_string()),
        data: vec![0x89, 0x50, 0x4e, 0x47],
    }
}

fn asset(id: &str, name: &str) -> UploadFileData {
    UploadFileData {
        file_id: id.to_string(),
        file_name: name.to_string(),
        content_sha1: SHA1_OF_EMPTY.to_string(),
        content_type: "application/java-archive".to_string(),
    }
}

#[test]
fn classify_by_field_and_extension() {
    assert_eq!(classify_part(&metadata_part()), PartRole::Metadata);
    assert_eq!(classify_part(&icon_part("icon.png")), PartRole::Icon);
    assert_eq!(classify_part(&jar_part("a.jar")), PartRole::VersionArchive);
    let other = RawPart {
        field_name: "readme".to_string(),
        file_name: Some("readme.txt".to_string()),
        extension: Some("txt".to_string()),
        data: vec![],
    };
    assert_eq!(classify_part(&other), PartRole::Unknown);
    let no_extension = RawPart {
        field_name: "blob".to_string(),
        file_name: Some("blob".to_string()),
        extension: None,
        data: vec![],
    };
    assert_eq!(classify_part(&no_extension), PartRole::Unknown);
}

#[test]
fn find_first_declaring_version() {
    let versions = vec![
        version(&["a.jar"], "One"),
        version(&["b.jar", "c.jar"], "Two"),
        version(&["c.jar"], "Three"),
    ];
    assert_eq!(find_version_for_file(&versions, &"a.jar".to_string()), Some(0));
    assert_eq!(find_version_for_file(&versions, &"b.jar".to_string()), Some(1));
    // The first declaring version wins, even when a later one also declares it.
    assert_eq!(find_version_for_file(&versions, &"c.jar".to_string()), Some(1));
    assert_eq!(find_version_for_file(&versions, &"d.jar".to_string()), None);
}

#[test]
fn two_versions_get_one_file_each() {
    let req = request(vec![version(&["a.jar"], "V1"), version(&["b.jar", "c.jar"], "V2")]);
    let parts = vec![metadata_part(), jar_part("a.jar"), jar_part("c.jar")];
    let (mut session, unmatched) = start_session(ModId(7), &req, parts);
    assert!(unmatched.is_empty());

    let mut uploads = 0;
    loop {
        let (kind, name) = match session.next_job() {
            Some(job) => (job.kind, job.upload_name.clone()),
            None => break,
        };
        match kind {
            JobKind::Archive(0) => assert_eq!(name, "a.jar"),
            JobKind::Archive(1) => assert_eq!(name, "c.jar"),
            other => panic!("unexpected job {:?}", other),
        }
        uploads += 1;
        session.record_success(asset(&format!("id-{}", uploads), &name));
    }
    assert_eq!(uploads, 2);

    let (created, versions) = session.finish(
        req,
        TeamId(9),
        vec![VersionId(100), VersionId(200)],
        1234,
    );
    assert_eq!(versions.len(), 2);
    assert_eq!(versions[0].files.len(), 1);
    assert_eq!(versions[1].files.len(), 1);
    for v in &versions {
        assert_eq!(v.files[0].hashes.len(), 1);
        assert_eq!(v.files[0].hashes[0].algorithm, "sha1");
        assert!(!v.files[0].hashes[0].hash.is_empty());
    }
    assert_eq!(versions[0].files[0].url, "cdnurl/a.jar");
    assert_eq!(versions[1].files[0].url, "cdnurl/c.jar");
    assert_eq!(created.versions, vec![VersionId(100), VersionId(200)]);
    assert_eq!(created.title, "Test Mod");
}

#[test]
fn unmatched_part_is_dropped_without_error() {
    let req = request(vec![version(&["a.jar"], "V1")]);
    let parts = vec![metadata_part(), jar_part("d.jar")];
    let (session, unmatched) = start_session(ModId(7), &req, parts);
    // The undeclared part is planned for no version; under the default
    // policy it is reported, not an error.
    assert!(session.next_job().is_none());
    assert_eq!(unmatched, vec!["d.jar".to_string()]);

    let (_created, versions) = session.finish(req, TeamId(9), vec![VersionId(100)], 1234);
    assert_eq!(versions.len(), 1);
    assert!(versions[0].files.is_empty());
}

#[test]
fn omitting_icon_part_yields_empty_icon_url() {
    let req = request(vec![version(&["a.jar"], "V1")]);
    let parts = vec![metadata_part(), jar_part("a.jar")];
    let (mut session, _) = start_session(ModId(7), &req, parts);
    let name = session.next_job().map(|j| j.upload_name.clone()).unwrap();
    session.record_success(asset("id-1", &name));
    assert!(session.next_job().is_none());

    let (created, _versions) = session.finish(req, TeamId(9), vec![VersionId(100)], 1234);
    assert_eq!(created.icon_url, "");
}

#[test]
fn icon_part_sets_icon_url() {
    let req = request(vec![]);
    let parts = vec![metadata_part(), icon_part("icon.png")];
    let (mut session, _) = start_session(ModId(7), &req, parts);
    let (kind, content_type, name) = match session.next_job() {
        Some(job) => (job.kind, job.content_type.clone(), job.upload_name.clone()),
        None => panic!("expected an icon job"),
    };
    assert_eq!(kind, JobKind::Icon);
    assert_eq!(content_type, "image/png");
    assert_eq!(name, format!("mods/icons/{}/icon.png", encode_base62(7)));
    session.record_success(UploadFileData {
        file_id: "icon-id".to_string(),
        file_name: "stored-icon.png".to_string(),
        content_sha1: SHA1_OF_EMPTY.to_string(),
        content_type: "image/png".to_string(),
    });
    let (created, versions) = session.finish(req, TeamId(9), vec![], 1234);
    assert_eq!(created.icon_url, "cdnurl/stored-icon.png");
    assert!(versions.is_empty());
}

#[test]
fn failed_upload_compensates_earlier_uploads() {
    let req = request(vec![version(&["a.jar"], "V1"), version(&["b.jar"], "V2")]);
    let parts = vec![metadata_part(), jar_part("a.jar"), jar_part("b.jar")];
    let (mut session, _) = start_session(ModId(7), &req, parts);

    // First upload succeeds.
    let name = session.next_job().map(|j| j.upload_name.clone()).unwrap();
    session.record_success(asset("first-id", &name));

    // Second upload fails with a backend error; every asset stored so far
    // must be handed back for deletion, and no record is assembled.
    assert!(session.next_job().is_some());
    let failure: Result<UploadFileData, FileHostingError> =
        Err(FileHostingError::BackblazeError("503 service unavailable".to_string()));
    assert!(failure.is_err());
    let to_delete = session.into_compensation();
    assert_eq!(to_delete.len(), 1);
    assert_eq!(to_delete[0].file_id, "first-id");
    assert_eq!(to_delete[0].file_name, "a.jar");
}

#[test]
fn binary_part_before_metadata_is_still_attached() {
    let req = request(vec![version(&["a.jar"], "V1")]);
    // The archive part arrives before the metadata part; two-phase
    // ingestion buffers everything first, so it is matched all the same.
    let parts = vec![jar_part("a.jar"), metadata_part()];
    let (mut session, unmatched) = start_session(ModId(7), &req, parts);
    assert!(unmatched.is_empty());
    let (kind, name) = match session.next_job() {
        Some(job) => (job.kind, job.upload_name.clone()),
        None => panic!("expected an archive job"),
    };
    assert_eq!(kind, JobKind::Archive(0));
    assert_eq!(name, "a.jar");
    session.record_success(asset("id-1", &name));
    let (_created, versions) = session.finish(req, TeamId(9), vec![VersionId(100)], 1234);
    assert_eq!(versions[0].files.len(), 1);
    assert_eq!(versions[0].files[0].url, "cdnurl/a.jar");
}

#[test]
fn markdown_body_is_rendered() {
    let req = request(vec![]);
    let parts = vec![metadata_part()];
    let (session, _) = start_session(ModId(7), &req, parts);
    let (created, _) = session.finish(req, TeamId(9), vec![], 1234);
    assert_eq!(created.body_url, "<h1>Hi</h1>\n");
}

#[test]
fn assembled_records_carry_request_fields() {
    let mut req = request(vec![version(&["a.jar"], "V1")]);
    req.issues_url = Some("https://example.invalid/issues".to_string());
    let parts = vec![metadata_part()];
    let (session, _) = start_session(ModId(42), &req, parts);
    let (created, versions) = session.finish(req, TeamId(9), vec![VersionId(5)], 7777);
    assert_eq!(created.id, ModId(42));
    assert_eq!(created.team.id, TeamId(9));
    assert_eq!(created.team.members.len(), 1);
    assert_eq!(created.team.members[0].user_id, "user-1");
    assert_eq!(created.description, "A short description");
    assert_eq!(created.published, 7777);
    assert_eq!(created.downloads, 0);
    assert_eq!(created.categories, vec!["technology".to_string()]);
    assert_eq!(created.issues_url.as_deref(), Some("https://example.invalid/issues"));
    assert_eq!(created.source_url, None);
    assert_eq!(versions[0].id, VersionId(5));
    assert_eq!(versions[0].mod_id, ModId(42));
    assert_eq!(versions[0].name, "V1");
    assert_eq!(versions[0].date_published, 7777);
    assert_eq!(versions[0].downloads, 0);
    assert!(versions[0].changelog_url.is_none());
}
