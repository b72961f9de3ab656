use tinyimage::compress::{
    check_payload, resolve_output_path, temp_path_for, tiny_file_name, CompressError,
    CompressJob, CompressResult, JobAction, JobEvent, JobStage, JobStep, Phase, Progress,
    ProgressEvent, ProgressMeter, DOWNLOAD_END_PERCENT, DOWNLOAD_START_PERCENT,
    MIN_PAYLOAD_BYTES, PROCESSING_PERCENT, UPLOAD_START_PERCENT,
};
use tinyimage::context_menu::{
    cleanup_legacy_workflows, register, unregister, ContextMenuError, ShellAction,
};
use tinyimage::paths::{split_file_name, SplitName};
use tinyimage::preview::{image_preview, mime_for_extension};
use tinyimage::settings::{default_theme, AppSettings, NotifyMode, OutputMode, Platform, Theme};

fn settings(mode: OutputMode, directory: &str) -> AppSettings {
    AppSettings {
        api_key: "key".to_string(),
        notify_mode: NotifyMode::Notification,
        output_mode: mode,
        output_directory: directory.to_string(),
        context_menu_enabled: false,
        theme: Theme::Auto,
    }
}

fn go(action: JobAction) -> JobStep {
    JobStep { progress: None, action }
}

fn failed() -> JobStep {
    go(JobAction::Fail { remove_temp: false })
}

#[test]
fn default_settings() {
    let mac = AppSettings::default_for(Platform::MacOs);
    assert_eq!(mac.api_key, "");
    assert_eq!(mac.notify_mode, NotifyMode::Notification);
    assert_eq!(mac.output_mode, OutputMode::Alongside);
    assert_eq!(mac.output_directory, "");
    assert!(mac.context_menu_enabled);
    assert_eq!(mac.theme, Theme::Auto);
    assert!(!AppSettings::default_for(Platform::Windows).context_menu_enabled);
    assert!(!AppSettings::default_for(Platform::Other).context_menu_enabled);
    assert_eq!(default_theme(), Theme::Auto);
}

#[test]
fn output_path_alongside() {
    assert_eq!(
        resolve_output_path("/a/b/photo.png", &settings(OutputMode::Alongside, "")),
        Ok("/a/b/photo-tiny.png".to_string())
    );
}

#[test]
fn output_path_overwrite() {
    assert_eq!(
        resolve_output_path("/a/b/photo.png", &settings(OutputMode::Overwrite, "/out")),
        Ok("/a/b/photo.png".to_string())
    );
}

#[test]
fn output_path_directory() {
    assert_eq!(
        resolve_output_path("/a/b/photo.png", &settings(OutputMode::Directory, "/out")),
        Ok("/out/photo.png".to_string())
    );
}

#[test]
fn output_path_directory_unset() {
    assert_eq!(
        resolve_output_path("/a/b/photo.png", &settings(OutputMode::Directory, "")),
        Err(CompressError::OutputDirectoryUnset)
    );
}

#[test]
fn output_path_without_extension() {
    assert_eq!(
        resolve_output_path("/a/b/photo", &settings(OutputMode::Alongside, "")),
        Ok("/a/b/photo-tiny".to_string())
    );
    assert_eq!(
        resolve_output_path("/a/b/photo.", &settings(OutputMode::Alongside, "")),
        Ok("/a/b/photo-tiny".to_string())
    );
    assert_eq!(
        resolve_output_path("/a/b/.hidden", &settings(OutputMode::Alongside, "")),
        Ok("/a/b/.hidden-tiny".to_string())
    );
}

#[test]
fn output_path_with_several_dots() {
    assert_eq!(
        resolve_output_path("/a/b.c/shot.final.JPG", &settings(OutputMode::Alongside, "")),
        Ok("/a/b.c/shot.final-tiny.JPG".to_string())
    );
    assert_eq!(
        resolve_output_path("pic.webp", &settings(OutputMode::Alongside, "")),
        Ok("pic-tiny.webp".to_string())
    );
}

#[test]
fn output_path_without_file_name() {
    assert_eq!(
        resolve_output_path("/", &settings(OutputMode::Alongside, "")),
        Err(CompressError::NoFileName)
    );
    assert_eq!(
        resolve_output_path("/a/..", &settings(OutputMode::Directory, "/out")),
        Err(CompressError::NoFileName)
    );
    assert_eq!(
        resolve_output_path("", &settings(OutputMode::Alongside, "")),
        Err(CompressError::NoFileName)
    );
}

#[test]
fn file_names_are_split_at_the_last_dot() {
    let split = |name: &str| split_file_name(name);
    assert_eq!(
        split("photo.png"),
        SplitName { stem: "photo".to_string(), extension: Some("png".to_string()) }
    );
    assert_eq!(
        split("a.tar.gz"),
        SplitName { stem: "a.tar".to_string(), extension: Some("gz".to_string()) }
    );
    assert_eq!(split("photo"), SplitName { stem: "photo".to_string(), extension: None });
    assert_eq!(split(".profile"), SplitName { stem: ".profile".to_string(), extension: None });
    assert_eq!(
        split("photo."),
        SplitName { stem: "photo".to_string(), extension: Some(String::new()) }
    );
    assert_eq!(
        split(".a.b"),
        SplitName { stem: ".a".to_string(), extension: Some("b".to_string()) }
    );
    assert_eq!(
        split("图片.jpeg"),
        SplitName { stem: "图片".to_string(), extension: Some("jpeg".to_string()) }
    );
    assert_eq!(split(""), SplitName { stem: String::new(), extension: None });
}

#[test]
fn split_agrees_with_the_standard_library() {
    for name in ["photo.png", "a.tar.gz", "photo", ".profile", "photo.", ".a.b", "x..y", "a.b."] {
        let path = std::path::Path::new(name);
        let parts = split_file_name(name);
        assert_eq!(Some(parts.stem.as_str()), path.file_stem().and_then(|s| s.to_str()));
        assert_eq!(parts.extension.as_deref(), path.extension().and_then(|s| s.to_str()));
    }
}

#[test]
fn tiny_names() {
    assert_eq!(tiny_file_name("photo.png"), "photo-tiny.png");
    assert_eq!(tiny_file_name("photo"), "photo-tiny");
    assert_eq!(tiny_file_name("photo."), "photo-tiny");
    assert_eq!(tiny_file_name(".hidden"), ".hidden-tiny");
    assert_eq!(tiny_file_name("a.b.c"), "a.b-tiny.c");
}

#[test]
fn temp_path_is_a_sibling() {
    assert_eq!(temp_path_for("/a/b/photo-tiny.png"), "/a/b/photo-tiny.__tinytmp__");
    assert_eq!(temp_path_for("/a/b/photo"), "/a/b/photo.__tinytmp__");
}

#[test]
fn payload_boundary() {
    assert_eq!(MIN_PAYLOAD_BYTES, 64);
    assert_eq!(check_payload(63), Err(CompressError::PayloadTooSmall(63)));
    assert_eq!(check_payload(64), Ok(()));
    assert_eq!(check_payload(0), Err(CompressError::PayloadTooSmall(0)));
    assert_eq!(check_payload(65), Ok(()));
    assert_eq!(check_payload(u64::MAX), Ok(()));
}

#[test]
fn phase_names() {
    assert_eq!(Phase::Uploading.name(), "uploading");
    assert_eq!(Phase::Processing.name(), "processing");
    assert_eq!(Phase::Downloading.name(), "downloading");
    assert_eq!(UPLOAD_START_PERCENT, 0);
    assert_eq!(PROCESSING_PERCENT, 40);
    assert_eq!(DOWNLOAD_START_PERCENT, 50);
    assert_eq!(DOWNLOAD_END_PERCENT, 99);
}

#[test]
fn upload_meter_reports_rising_values_up_to_forty() {
    let report = |percent| Some(Progress { percent, phase: Phase::Uploading });
    let mut meter = ProgressMeter::for_upload();
    assert_eq!(meter.offer(0), None);
    assert_eq!(meter.offer(1), report(1));
    assert_eq!(meter.offer(1), None);
    assert_eq!(meter.offer(17), report(17));
    assert_eq!(meter.offer(16), None);
    assert_eq!(meter.offer(41), None);
    assert_eq!(meter.offer(40), report(40));
    assert_eq!(meter.offer(40), None);
    assert_eq!(meter.offer(255), None);
}

#[test]
fn download_meter_reports_rising_values_up_to_ninety_nine() {
    let report = |percent| Some(Progress { percent, phase: Phase::Downloading });
    let mut meter = ProgressMeter::for_download();
    assert_eq!(meter.offer(50), None);
    assert_eq!(meter.offer(10), None);
    assert_eq!(meter.offer(51), report(51));
    assert_eq!(meter.offer(51), None);
    assert_eq!(meter.offer(100), None);
    assert_eq!(meter.offer(99), report(99));
    assert_eq!(meter.offer(98), None);
}

#[test]
fn progress_events_carry_the_path() {
    let progress = Progress { percent: 40, phase: Phase::Processing };
    assert_eq!(
        progress.event_for("/a/b.png"),
        ProgressEvent { path: "/a/b.png".to_string(), percent: 40, phase: Phase::Processing }
    );
}

#[test]
fn error_messages() {
    assert_eq!(CompressError::MissingApiKey.message(), "the API key is not set");
    assert_eq!(CompressError::InputMissing.message(), "the file does not exist");
    assert_eq!(CompressError::InputUnreadable.message(), "the file could not be read");
    assert_eq!(CompressError::UploadFailed.message(), "the upload failed");
    assert_eq!(
        CompressError::UploadRejected("Credentials are invalid.".to_string()).message(),
        "the upload was rejected: Credentials are invalid."
    );
    assert_eq!(
        CompressError::BadResponse.message(),
        "the answer of the service could not be read"
    );
    assert_eq!(CompressError::DownloadFailed.message(), "the download failed");
    assert_eq!(CompressError::DownloadRejected.message(), "the download was rejected");
    assert_eq!(
        CompressError::PayloadTooSmall(63).message(),
        "the downloaded file is damaged (63 bytes)"
    );
    assert_eq!(CompressError::NoFileName.message(), "the path has no file name");
    assert_eq!(CompressError::NoParentDirectory.message(), "the path has no parent directory");
    assert_eq!(CompressError::OutputDirectoryUnset.message(), "no output directory is set");
    assert_eq!(
        CompressError::CreateDirectoryFailed.message(),
        "the output directory could not be created"
    );
    assert_eq!(CompressError::WriteFailed.message(), "the temporary file could not be written");
    assert_eq!(CompressError::RenameFailed.message(), "the file could not be moved into place");
    assert_eq!(
        CompressError::OutOfOrder.message(),
        "the steps of the compression got out of order"
    );
}

fn job_at_download(mode: OutputMode, directory: &str) -> CompressJob {
    let mut job = CompressJob::new("/a/b/photo.png", &settings(mode, directory));
    assert_eq!(job.advance(JobEvent::Start), go(JobAction::ReadInput));
    assert_eq!(
        job.advance(JobEvent::InputRead(1000)),
        JobStep {
            progress: Some(Progress { percent: 0, phase: Phase::Uploading }),
            action: JobAction::Upload
        }
    );
    assert_eq!(
        job.advance(JobEvent::UploadAccepted),
        JobStep {
            progress: Some(Progress { percent: 40, phase: Phase::Processing }),
            action: JobAction::AwaitResult
        }
    );
    assert_eq!(
        job.advance(JobEvent::ResultReady),
        JobStep {
            progress: Some(Progress { percent: 50, phase: Phase::Downloading }),
            action: JobAction::Download
        }
    );
    assert_eq!(job.stage(), JobStage::Downloading);
    job
}

#[test]
fn job_runs_to_success() {
    let mut job = job_at_download(OutputMode::Alongside, "");
    assert_eq!(job.result(), None);
    assert_eq!(job.advance(JobEvent::Downloaded(400)), go(JobAction::WriteTemp));
    assert_eq!(job.stage(), JobStage::WritingTemp);
    assert_eq!(job.input_path(), "/a/b/photo.png");
    assert_eq!(job.output_path(), "/a/b/photo-tiny.png");
    assert_eq!(job.temp_path(), "/a/b/photo-tiny.__tinytmp__");
    assert_eq!(job.output_parent(), Some("/a/b".to_string()));
    assert_eq!(job.advance(JobEvent::Written), go(JobAction::Rename));
    assert_eq!(job.advance(JobEvent::Renamed), go(JobAction::Succeed));
    assert_eq!(job.stage(), JobStage::Succeeded);
    assert_eq!(
        job.result(),
        Some(CompressResult {
            input_size: 1000,
            output_size: 400,
            output_path: "/a/b/photo-tiny.png".to_string()
        })
    );
    assert_eq!(job.error(), &None);
}

#[test]
fn job_overwrites_through_a_temporary_file() {
    let mut job = job_at_download(OutputMode::Overwrite, "");
    assert_eq!(job.advance(JobEvent::Downloaded(64)), go(JobAction::WriteTemp));
    assert_eq!(job.output_path(), "/a/b/photo.png");
    assert_eq!(job.temp_path(), "/a/b/photo.__tinytmp__");
}

#[test]
fn job_writes_into_the_configured_directory() {
    let mut job = job_at_download(OutputMode::Directory, "/out");
    assert_eq!(job.advance(JobEvent::Downloaded(64)), go(JobAction::WriteTemp));
    assert_eq!(job.output_path(), "/out/photo.png");
    assert_eq!(job.output_parent(), Some("/out".to_string()));
}

#[test]
fn job_needs_an_api_key() {
    let mut without_key = settings(OutputMode::Alongside, "");
    without_key.api_key = String::new();
    let mut job = CompressJob::new("/a/b/photo.png", &without_key);
    assert_eq!(job.stage(), JobStage::Created);
    assert_eq!(job.advance(JobEvent::Start), failed());
    assert_eq!(job.stage(), JobStage::Failed);
    assert_eq!(job.error(), &Some(CompressError::MissingApiKey));
    assert_eq!(job.result(), None);
}

#[test]
fn job_fails_on_missing_input() {
    let mut job = CompressJob::new("/a/b/photo.png", &settings(OutputMode::Alongside, ""));
    job.advance(JobEvent::Start);
    assert_eq!(job.advance(JobEvent::InputMissing), failed());
    assert_eq!(job.error(), &Some(CompressError::InputMissing));

    let mut job = CompressJob::new("/a/b/photo.png", &settings(OutputMode::Alongside, ""));
    job.advance(JobEvent::Start);
    assert_eq!(job.advance(JobEvent::InputUnreadable), failed());
    assert_eq!(job.error(), &Some(CompressError::InputUnreadable));
}

#[test]
fn job_fails_on_upload_errors() {
    let start = || {
        let mut job = CompressJob::new("/a/b/photo.png", &settings(OutputMode::Alongside, ""));
        job.advance(JobEvent::Start);
        job.advance(JobEvent::InputRead(10));
        job
    };
    let mut job = start();
    assert_eq!(job.advance(JobEvent::UploadFailed), failed());
    assert_eq!(job.error(), &Some(CompressError::UploadFailed));

    let mut job = start();
    assert_eq!(job.advance(JobEvent::UploadRejected("Unauthorized".to_string())), failed());
    assert_eq!(job.error(), &Some(CompressError::UploadRejected("Unauthorized".to_string())));

    let mut job = start();
    job.advance(JobEvent::UploadAccepted);
    assert_eq!(job.advance(JobEvent::ResultUnreadable), failed());
    assert_eq!(job.error(), &Some(CompressError::BadResponse));
}

#[test]
fn job_fails_on_download_errors() {
    let mut job = job_at_download(OutputMode::Alongside, "");
    assert_eq!(job.advance(JobEvent::DownloadRejected), failed());
    assert_eq!(job.error(), &Some(CompressError::DownloadRejected));

    let mut job = job_at_download(OutputMode::Alongside, "");
    assert_eq!(job.advance(JobEvent::DownloadFailed), failed());
    assert_eq!(job.error(), &Some(CompressError::DownloadFailed));
}

#[test]
fn job_refuses_small_payloads() {
    let mut job = job_at_download(OutputMode::Alongside, "");
    assert_eq!(job.advance(JobEvent::Downloaded(63)), failed());
    assert_eq!(job.error(), &Some(CompressError::PayloadTooSmall(63)));
    assert_eq!(job.output_path(), "");

    let mut job = job_at_download(OutputMode::Alongside, "");
    assert_eq!(job.advance(JobEvent::Downloaded(64)), go(JobAction::WriteTemp));
    assert_eq!(job.error(), &None);
}

#[test]
fn job_fails_when_no_output_path_can_be_formed() {
    let mut job = job_at_download(OutputMode::Directory, "");
    assert_eq!(job.advance(JobEvent::Downloaded(500)), failed());
    assert_eq!(job.error(), &Some(CompressError::OutputDirectoryUnset));
}

#[test]
fn job_fails_on_write_errors() {
    let mut job = job_at_download(OutputMode::Alongside, "");
    job.advance(JobEvent::Downloaded(500));
    assert_eq!(job.advance(JobEvent::WriteFailed), failed());
    assert_eq!(job.error(), &Some(CompressError::WriteFailed));

    let mut job = job_at_download(OutputMode::Alongside, "");
    job.advance(JobEvent::Downloaded(500));
    assert_eq!(job.advance(JobEvent::DirectoryFailed), failed());
    assert_eq!(job.error(), &Some(CompressError::CreateDirectoryFailed));
}

#[test]
fn job_removes_the_temporary_file_when_rename_fails() {
    let mut job = job_at_download(OutputMode::Alongside, "");
    job.advance(JobEvent::Downloaded(500));
    job.advance(JobEvent::Written);
    assert_eq!(job.stage(), JobStage::Renaming);
    assert_eq!(job.advance(JobEvent::RenameFailed), go(JobAction::Fail { remove_temp: true }));
    assert_eq!(job.error(), &Some(CompressError::RenameFailed));
    assert_eq!(job.temp_path(), "/a/b/photo-tiny.__tinytmp__");
    assert_eq!(job.result(), None);
}

#[test]
fn job_refuses_events_out_of_order() {
    let mut job = CompressJob::new("/a/b/photo.png", &settings(OutputMode::Alongside, ""));
    assert_eq!(job.advance(JobEvent::Downloaded(500)), failed());
    assert_eq!(job.error(), &Some(CompressError::OutOfOrder));
    assert_eq!(job.advance(JobEvent::Start), failed());
    assert_eq!(job.stage(), JobStage::Failed);
    assert_eq!(job.error(), &Some(CompressError::OutOfOrder));

    let mut job = job_at_download(OutputMode::Alongside, "");
    assert_eq!(job.advance(JobEvent::Written), failed());
    assert_eq!(job.error(), &Some(CompressError::OutOfOrder));
}

#[test]
fn finished_job_stays_as_it_is() {
    let mut job = job_at_download(OutputMode::Alongside, "");
    job.advance(JobEvent::Downloaded(500));
    job.advance(JobEvent::Written);
    job.advance(JobEvent::Renamed);
    let result = job.result();
    assert!(result.is_some());
    assert_eq!(job.advance(JobEvent::Renamed), go(JobAction::Succeed));
    assert_eq!(job.advance(JobEvent::RenameFailed), go(JobAction::Succeed));
    assert_eq!(job.stage(), JobStage::Succeeded);
    assert_eq!(job.result(), result);
    assert_eq!(job.error(), &None);

    let mut job = job_at_download(OutputMode::Alongside, "");
    job.advance(JobEvent::Downloaded(500));
    job.advance(JobEvent::Written);
    assert_eq!(job.advance(JobEvent::RenameFailed), go(JobAction::Fail { remove_temp: true }));
    assert_eq!(job.advance(JobEvent::Renamed), failed());
    assert_eq!(job.error(), &Some(CompressError::RenameFailed));
}

#[test]
fn context_menu_is_unsupported_elsewhere() {
    assert_eq!(register(Platform::Other, "/usr/bin/tinyimage"), Err(ContextMenuError::Unsupported));
    assert_eq!(unregister(Platform::Other), Ok(Vec::new()));
}

#[test]
fn context_menu_on_macos() {
    let cleanup = vec![
        ShellAction::RemoveLegacyWorkflow("Library/Services/用TinyImage压缩.workflow".to_string()),
        ShellAction::RemoveLegacyWorkflow("Library/Services/TinyImage.workflow".to_string()),
    ];
    assert_eq!(cleanup_legacy_workflows(), cleanup);
    assert_eq!(unregister(Platform::MacOs), Ok(cleanup.clone()));
    let mut expected = cleanup;
    expected.push(ShellAction::FlushServices);
    assert_eq!(register(Platform::MacOs, "/Applications/TinyImage.app"), Ok(expected));
}

#[test]
fn context_menu_on_windows() {
    let plan = register(Platform::Windows, "C:\\Apps\\tiny.exe").unwrap();
    assert_eq!(plan.len(), 17);
    let key = "Software\\Classes\\SystemFileAssociations\\.png\\shell\\TinyImage";
    assert_eq!(
        plan[0],
        ShellAction::SetRegistryValue {
            key: key.to_string(),
            name: String::new(),
            value: "用TinyImage压缩".to_string()
        }
    );
    assert_eq!(
        plan[1],
        ShellAction::SetRegistryValue {
            key: key.to_string(),
            name: "Icon".to_string(),
            value: "C:\\Apps\\tiny.exe,0".to_string()
        }
    );
    assert_eq!(
        plan[2],
        ShellAction::SetRegistryValue {
            key: key.to_string(),
            name: "MultiSelectModel".to_string(),
            value: "Player".to_string()
        }
    );
    assert_eq!(
        plan[3],
        ShellAction::SetRegistryValue {
            key: format!("{}\\command", key),
            name: String::new(),
            value: "\"C:\\Apps\\tiny.exe\" --compress \"%1\"".to_string()
        }
    );
    for (i, extension) in ["png", "jpg", "jpeg", "webp"].iter().enumerate() {
        match &plan[4 * i] {
            ShellAction::SetRegistryValue { key, .. } => assert_eq!(
                key,
                &format!(
                    "Software\\Classes\\SystemFileAssociations\\.{}\\shell\\TinyImage",
                    extension
                )
            ),
            other => panic!("unexpected step {:?}", other),
        }
    }
    assert_eq!(plan[16], ShellAction::RestartExplorer);

    assert_eq!(
        unregister(Platform::Windows),
        Ok(vec![
            ShellAction::DeleteRegistryTree(
                "Software\\Classes\\SystemFileAssociations\\.png\\shell\\TinyImage".to_string()
            ),
            ShellAction::DeleteRegistryTree(
                "Software\\Classes\\SystemFileAssociations\\.jpg\\shell\\TinyImage".to_string()
            ),
            ShellAction::DeleteRegistryTree(
                "Software\\Classes\\SystemFileAssociations\\.jpeg\\shell\\TinyImage".to_string()
            ),
            ShellAction::DeleteRegistryTree(
                "Software\\Classes\\SystemFileAssociations\\.webp\\shell\\TinyImage".to_string()
            ),
            ShellAction::RestartExplorer,
        ])
    );
}

#[test]
fn media_types() {
    assert_eq!(mime_for_extension("png"), "image/png");
    assert_eq!(mime_for_extension("webp"), "image/webp");
    assert_eq!(mime_for_extension("jpg"), "image/jpeg");
    assert_eq!(mime_for_extension("jpeg"), "image/jpeg");
    assert_eq!(mime_for_extension("gif"), "image/jpeg");
    assert_eq!(mime_for_extension("PNG"), "image/jpeg");
    assert_eq!(mime_for_extension(""), "image/jpeg");
}

#[test]
fn previews_are_data_urls() {
    assert_eq!(
        image_preview("/a/b.png", b"hi"),
        Some("data:image/png;base64,aGk=".to_string())
    );
    assert_eq!(
        image_preview("/a/B.PNG", b"hello world~"),
        Some("data:image/png;base64,aGVsbG8gd29ybGR+".to_string())
    );
    assert_eq!(
        image_preview("/a/b.WebP", &[0xff, 0xfe, 0xfd]),
        Some("data:image/webp;base64,//79".to_string())
    );
    assert_eq!(image_preview("/a/b.jpg", b""), Some("data:image/jpeg;base64,".to_string()));
    assert_eq!(image_preview("/a/b", b"a"), Some("data:image/jpeg;base64,YQ==".to_string()));
    assert_eq!(image_preview("", b"a"), Some("data:image/jpeg;base64,YQ==".to_string()));
}
