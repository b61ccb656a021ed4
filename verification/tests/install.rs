use release_installer::extract::{extract_zip, FsAction, InstallTarget};
use release_installer::release::{install_query, resolve, AssetDescriptor, ReleaseDescriptor};
use release_installer::status::RequestOutcome;
use release_installer::transfer::{Completion, TransferEvent, TransferProgress, TransferStep};
use std::io::Write;
use zip::write::FileOptions;

fn northstar_archive() -> Vec<u8> {
    let mut writer = zip::ZipWriter::new(std::io::Cursor::new(Vec::new()));
    writer.start_file("NorthstarLauncher.exe", FileOptions::default()).unwrap();
    writer.write_all(b"MZ launcher").unwrap();
    writer.add_directory("R2Northstar/mods/", FileOptions::default()).unwrap();
    let options = FileOptions::default();
    writer.start_file("R2Northstar/mods/Northstar.Client/mod.json", options).unwrap();
    writer.write_all(b"{\"Name\":\"Northstar.Client\"}").unwrap();
    writer.finish().unwrap().into_inner()
}

#[test]
fn missing_launcher_is_resolved_transferred_and_extracted() {
    // The launcher "launcher.exe" is not on disk, so the latest release is asked for.
    let launcher_exists = false;
    let query = install_query(launcher_exists, "R2Northstar/Northstar").unwrap();
    assert_eq!(query.url, "https://api.github.com/repos/R2Northstar/Northstar/releases/latest");

    // The host answers with a release of two assets.
    let release = ReleaseDescriptor {
        assets: vec![
            AssetDescriptor {
                name: "Northstar.zip".to_string(),
                download_url: "https://example.invalid/download/Northstar.zip".to_string(),
            },
            AssetDescriptor {
                name: "checksums.txt".to_string(),
                download_url: "https://example.invalid/download/checksums.txt".to_string(),
            },
        ],
    };
    let asset = resolve(RequestOutcome::Answered { status: 200 }, Some(release)).unwrap();
    assert_eq!(asset.name, "Northstar.zip");
    assert_eq!(asset.download_url, "https://example.invalid/download/Northstar.zip");

    // The asset arrives in chunks and is stored in the local file "Northstar.zip".
    let served = northstar_archive();
    let mut local_file: Vec<u8> = Vec::new();
    let reply = RequestOutcome::Answered { status: 200 };
    let mut progress = TransferProgress::begin(reply, Some(served.len() as u64)).unwrap();
    let mut last = None;
    for chunk in served.chunks(7) {
        local_file.extend_from_slice(chunk);
        match progress.step(TransferEvent::Chunk { len: chunk.len() as u64 }) {
            Ok(TransferStep::Continue(report)) => last = Some(report),
            other => panic!("a stored chunk was answered with {:?}", other),
        }
    }
    let last = last.unwrap();
    assert_eq!(last.received, served.len() as u64);
    assert_eq!(last.completion, Completion::Hundredths(10000));
    assert_eq!(
        progress.step(TransferEvent::EndOfStream),
        Ok(TransferStep::Rewind { bytes: served.len() as u64 })
    );
    assert_eq!(local_file, served);

    // The local file is unpacked into "test", which is not there yet.
    let target =
        InstallTarget { path: "test".to_string(), exists: false, backslash_separates: false };
    let plan = extract_zip(local_file, &target).unwrap();
    assert_eq!(
        plan,
        vec![
            FsAction::CreateDir { path: "test".to_string() },
            FsAction::CreateDirAll { path: "test".to_string() },
            FsAction::WriteFile {
                path: "test/NorthstarLauncher.exe".to_string(),
                data: b"MZ launcher".to_vec(),
            },
            FsAction::CreateDirAll { path: "test/R2Northstar/mods/".to_string() },
            FsAction::CreateDirAll { path: "test/R2Northstar/mods/Northstar.Client".to_string() },
            FsAction::WriteFile {
                path: "test/R2Northstar/mods/Northstar.Client/mod.json".to_string(),
                data: b"{\"Name\":\"Northstar.Client\"}".to_vec(),
            },
        ]
    );
    for action in &plan {
        let path = action.path();
        assert!(path == "test" || path.starts_with("test/"));
    }
}
