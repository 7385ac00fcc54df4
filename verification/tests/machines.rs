use mod_installer::data::ModrinthFile;
use mod_installer::data::ModrinthHashes;
use mod_installer::data::ModrinthModData;
use mod_installer::install::Installer;
use mod_installer::install::StepAction;
use mod_installer::outcome::FileOutcome;
use mod_installer::outcome::InstallError;
use mod_installer::transfer::FileTransfer;
use mod_installer::transfer::TransferEvent;
use mod_installer::transfer::TransferStep;
use mod_installer::user_agent;

fn remote_file(name: &str) -> ModrinthFile {
    ModrinthFile {
        hashes: ModrinthHashes {
            sha512: String::from("fade0123"),
            sha1: String::from("beef4567"),
        },
        url: format!("https://example.net/{}", name),
        filename: String::from(name),
        primary: false,
        size: 64,
    }
}

fn descriptor(files: Vec<ModrinthFile>) -> ModrinthModData {
    ModrinthModData {
        id: String::from("version-7"),
        project_id: String::from("project-2"),
        author_id: String::from("author-5"),
        featured: true,
        name: String::from("Another Mod"),
        version_number: String::from("2.3.4"),
        changelog: String::from(""),
        changelog_url: Some(String::from("https://example.net/changelog")),
        date_published: String::from("2022-06-15"),
        downloads: 0,
        version_type: String::from("beta"),
        files,
        game_versions: vec![String::from("1.19")],
        loaders: vec![String::from("forge")],
    }
}

#[test]
fn installer_walks_files_in_list_order() {
    let data = descriptor(vec![remote_file("one.jar"), remote_file("two.jar")]);
    let pack_id = String::from("pack-9");
    let mut inst = Installer::new(&data, &pack_id);

    let first = inst.next_file().expect("a file is pending");
    assert_eq!(first.filename, "one.jar");
    assert!(!inst.all_files_done());
    match inst.on_file_outcome(FileOutcome::Completed) {
        StepAction::Proceed(p) => {
            assert_eq!(p.mod_id, "version-7");
            assert_eq!(p.pack_id, "pack-9");
        }
        _ => panic!("a completed file is answered with the completion event"),
    }

    let second = inst.next_file().expect("one file left");
    assert_eq!(second.filename, "two.jar");
    match inst.on_file_outcome(FileOutcome::Completed) {
        StepAction::Proceed(_) => {}
        _ => panic!("a completed file is answered with the completion event"),
    }

    assert!(inst.next_file().is_none());
    assert!(inst.all_files_done());
    let record = inst.finish();
    assert_eq!(record.project_id, "project-2");
    assert_eq!(record.version_id, "version-7");
    assert_eq!(record.filenames, vec!["one.jar", "two.jar"]);
}

#[test]
fn installer_stream_failure_emits_and_aborts() {
    let data = descriptor(vec![remote_file("one.jar"), remote_file("two.jar")]);
    let pack_id = String::from("pack-9");
    let mut inst = Installer::new(&data, &pack_id);

    match inst.on_file_outcome(FileOutcome::StreamFailed(String::from("reset"))) {
        StepAction::EmitAndAbort(p, e) => {
            assert_eq!(p.mod_id, "version-7");
            assert_eq!(p.pack_id, "pack-9");
            assert_eq!(p.file_name, "one.jar");
            assert_eq!(p.error, "reset");
            assert_eq!(e, InstallError::StreamError(String::from("reset")));
        }
        _ => panic!("a stream failure is answered with the failure event and the error"),
    }
    assert!(inst.next_file().is_none());
    assert!(!inst.all_files_done());
}

#[test]
fn installer_fetch_failure_aborts_silently() {
    let data = descriptor(vec![remote_file("one.jar")]);
    let pack_id = String::from("pack-9");
    let mut inst = Installer::new(&data, &pack_id);

    match inst.on_file_outcome(FileOutcome::FetchFailed(String::from("tls handshake"))) {
        StepAction::Abort(e) => {
            assert_eq!(e, InstallError::FetchError(String::from("tls handshake")));
        }
        _ => panic!("a fetch-initiation failure aborts without an event"),
    }
    assert!(inst.next_file().is_none());
}

#[test]
fn installer_create_failure_aborts_silently() {
    let data = descriptor(vec![remote_file("one.jar")]);
    let pack_id = String::from("pack-9");
    let mut inst = Installer::new(&data, &pack_id);

    match inst.on_file_outcome(FileOutcome::CreateFailed(String::from("read-only directory"))) {
        StepAction::Abort(e) => {
            assert_eq!(
                e,
                InstallError::LocalIOError(String::from("read-only directory"))
            );
        }
        _ => panic!("a creation failure aborts without an event"),
    }
    assert!(inst.next_file().is_none());
}

#[test]
fn transfer_accumulates_bytes_until_stream_end() {
    let mut t = FileTransfer::new();
    assert_eq!(t.bytes_so_far(), 0);
    assert_eq!(t.on_event(TransferEvent::ChunkWritten(10)), TransferStep::KeepReading);
    assert_eq!(t.on_event(TransferEvent::ChunkWritten(32)), TransferStep::KeepReading);
    assert_eq!(
        t.on_event(TransferEvent::StreamEnd),
        TransferStep::Done(FileOutcome::Completed)
    );
    assert_eq!(t.bytes_so_far(), 42);
    assert!(!t.was_cut_short());
}

#[test]
fn transfer_write_error_still_counts_as_completed() {
    let mut t = FileTransfer::new();
    assert_eq!(t.on_event(TransferEvent::ChunkWritten(5)), TransferStep::KeepReading);
    assert_eq!(
        t.on_event(TransferEvent::WriteError(String::from("disk full"))),
        TransferStep::Done(FileOutcome::Completed)
    );
    assert_eq!(t.bytes_so_far(), 5);
    assert!(t.was_cut_short());
}

#[test]
fn transfer_stream_error_is_fatal() {
    let mut t = FileTransfer::new();
    assert_eq!(t.on_event(TransferEvent::ChunkWritten(5)), TransferStep::KeepReading);
    assert_eq!(
        t.on_event(TransferEvent::StreamError(String::from("broken pipe"))),
        TransferStep::Done(FileOutcome::StreamFailed(String::from("broken pipe")))
    );
    assert_eq!(t.bytes_so_far(), 5);
    assert!(!t.was_cut_short());
}

#[test]
fn transfer_byte_counter_saturates() {
    let mut t = FileTransfer::new();
    assert_eq!(
        t.on_event(TransferEvent::ChunkWritten(u64::MAX - 1)),
        TransferStep::KeepReading
    );
    assert_eq!(t.on_event(TransferEvent::ChunkWritten(7)), TransferStep::KeepReading);
    assert_eq!(t.bytes_so_far(), u64::MAX);
}

#[test]
fn write_error_file_is_still_recorded_as_completed() {
    let data = descriptor(vec![remote_file("one.jar")]);
    let pack_id = String::from("pack-9");
    let mut inst = Installer::new(&data, &pack_id);
    assert_eq!(inst.next_file().expect("one file pending").filename, "one.jar");

    let mut t = FileTransfer::new();
    assert_eq!(t.on_event(TransferEvent::ChunkWritten(3)), TransferStep::KeepReading);
    let outcome = match t.on_event(TransferEvent::WriteError(String::from("disk full"))) {
        TransferStep::Done(o) => o,
        TransferStep::KeepReading => panic!("a write error ends the transfer"),
    };
    assert!(t.was_cut_short());

    match inst.on_file_outcome(outcome) {
        StepAction::Proceed(_) => {}
        _ => panic!("a cut-short transfer still counts as a completed file"),
    }
    assert!(inst.all_files_done());
    let record = inst.finish();
    assert_eq!(record.filenames, vec!["one.jar"]);
}

#[test]
fn user_agent_is_the_fixed_client_string() {
    assert_eq!(user_agent(), "mc-mod-manager/v1.0-alpha");
}
