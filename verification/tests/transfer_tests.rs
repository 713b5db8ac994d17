use remit::transfer::{
    desktop_upload_name, display_name_from_reply, ftp_address, upload_name, StepOutcome, TransferError,
    TransferProgress, TransferStep, Upload, UploadAction, UploadStep, CHUNK_SIZE, FTP_PASSWORD, FTP_PORT,
    FTP_USER,
};

#[test]
fn ftp_constants() {
    assert_eq!(FTP_PORT, 2001);
    assert_eq!(FTP_USER, "anonymous");
    assert_eq!(FTP_PASSWORD, "");
    assert_eq!(CHUNK_SIZE, 8192);
}

#[test]
fn ftp_address_of_a_device() {
    assert_eq!(ftp_address("192.168.1.20"), "192.168.1.20:2001");
}

#[test]
fn error_messages_for_each_variant() {
    let d = || "boom".to_string();
    assert_eq!(TransferError::Connect(d()).message(), "boom");
    assert_eq!(TransferError::Login(d()).message(), "Error login FTP: boom");
    assert_eq!(TransferError::InvalidPath(d()).message(), "Ruta de archivo no valida: boom");
    assert_eq!(TransferError::Open(d()).message(), "No se pudo abrir el archivo: boom");
    assert_eq!(TransferError::Metadata(d()).message(), "boom");
    assert_eq!(TransferError::MissingFileName.message(), "No se pudo obtener el nombre del archivo");
    assert_eq!(TransferError::DisplayName(d()).message(), "boom");
    assert_eq!(TransferError::Upload(d()).message(), "boom");
    assert_eq!(TransferError::Read(d()).message(), "boom");
    assert_eq!(TransferError::Write(d()).message(), "boom");
    assert_eq!(TransferError::Finish(d()).message(), "boom");
}

#[test]
fn android_display_name_cases() {
    assert_eq!(display_name_from_reply(Some("foto.jpg".to_string())), Ok("foto.jpg".to_string()));
    assert_eq!(
        display_name_from_reply(Some(String::new())),
        Err("Android no devolvio el nombre del archivo".to_string())
    );
    assert_eq!(display_name_from_reply(None), Err("Android no devolvio el nombre del archivo".to_string()));
}

#[test]
fn upload_name_from_file_name() {
    assert!(matches!(upload_name(Some("a.txt".to_string())), Ok(n) if n == "a.txt"));
    assert!(matches!(upload_name(None), Err(TransferError::MissingFileName)));
}

#[test]
fn desktop_upload_name_is_the_last_component() {
    assert!(matches!(desktop_upload_name("/home/ana/fotos/playa.png"), Ok(n) if n == "playa.png"));
    assert!(matches!(desktop_upload_name("notas.txt"), Ok(n) if n == "notas.txt"));
    assert!(matches!(desktop_upload_name("/"), Err(TransferError::MissingFileName)));
    assert!(matches!(desktop_upload_name("/home/.."), Err(TransferError::MissingFileName)));
    assert!(matches!(desktop_upload_name(""), Err(TransferError::MissingFileName)));
}

#[test]
fn transfer_counts_every_read_and_stops_on_empty_read() {
    let mut p = TransferProgress::start(20000);
    assert_eq!(p.total_bytes, 20000);
    assert_eq!(p.sent_bytes, 0);
    assert!(matches!(p.on_read(8192), TransferStep::Forward(8192)));
    assert!(matches!(p.on_read(8192), TransferStep::Forward(8192)));
    assert!(matches!(p.on_read(3616), TransferStep::Forward(3616)));
    assert_eq!(p.sent_bytes, 20000);
    assert!(matches!(p.on_read(0), TransferStep::Finished));
    assert_eq!(p.sent_bytes, 20000);
    assert_eq!(p.total_bytes, 20000);
}

#[test]
fn empty_file_finishes_at_once() {
    let mut p = TransferProgress::start(0);
    assert!(matches!(p.on_read(0), TransferStep::Finished));
    assert_eq!(p.sent_bytes, 0);
}

#[test]
fn upload_name_ignores_trailing_separators() {
    assert!(matches!(desktop_upload_name("/usr/bin/"), Ok(n) if n == "bin"));
    assert!(matches!(desktop_upload_name("foo.txt/.//"), Ok(n) if n == "foo.txt"));
    assert!(matches!(desktop_upload_name("tmp/foo.txt/."), Ok(n) if n == "foo.txt"));
}

#[test]
fn upload_name_of_a_windows_path_is_one_of_the_platform_cuts() {
    let path = "C:\\Users\\ana\\playa.png";
    match desktop_upload_name(path) {
        Ok(n) => assert!(n == "playa.png" || n == path),
        Err(_) => panic!("an ordinary Windows path has a name"),
    }
}

fn perform(upload: &mut Upload, outcome: StepOutcome) -> UploadAction {
    assert!(upload.accepts(&outcome));
    upload.advance(outcome)
}

fn step_of(action: UploadAction) -> UploadStep {
    match action {
        UploadAction::Perform(step) => step,
        _ => panic!("expected a step"),
    }
}

#[test]
fn upload_takes_its_steps_in_order() {
    let mut u = Upload::new();
    assert!(matches!(step_of(perform(&mut u, StepOutcome::Done)), UploadStep::Login));
    assert!(matches!(step_of(perform(&mut u, StepOutcome::Done)), UploadStep::Open));
    assert!(matches!(step_of(perform(&mut u, StepOutcome::Done)), UploadStep::Measure));
    assert!(matches!(step_of(perform(&mut u, StepOutcome::SizeRead(10000))), UploadStep::Name));
    assert_eq!(u.total_bytes(), 10000);
    assert!(matches!(step_of(perform(&mut u, StepOutcome::Done)), UploadStep::StartUpload));
    assert!(matches!(step_of(perform(&mut u, StepOutcome::Done)), UploadStep::Read));
    assert!(matches!(step_of(perform(&mut u, StepOutcome::BytesRead(8192))), UploadStep::Write(8192)));
    assert_eq!(u.sent_bytes(), 8192);
    assert!(matches!(step_of(perform(&mut u, StepOutcome::Done)), UploadStep::Read));
    assert!(matches!(step_of(perform(&mut u, StepOutcome::BytesRead(1808))), UploadStep::Write(1808)));
    assert!(matches!(step_of(perform(&mut u, StepOutcome::Done)), UploadStep::Read));
    assert!(matches!(step_of(perform(&mut u, StepOutcome::BytesRead(0))), UploadStep::Finish));
    assert_eq!(u.sent_bytes(), 10000);
    assert!(matches!(perform(&mut u, StepOutcome::Done), UploadAction::Completed));
    assert!(!u.accepts(&StepOutcome::Done));
    assert!(!u.accepts(&StepOutcome::Failed("late".to_string())));
}

#[test]
fn first_failure_ends_the_upload_with_its_own_error() {
    let mut u = Upload::new();
    perform(&mut u, StepOutcome::Done);
    match perform(&mut u, StepOutcome::Failed("530 denied".to_string())) {
        UploadAction::Aborted(e) => assert_eq!(e.message(), "Error login FTP: 530 denied"),
        _ => panic!("expected the login error"),
    }
    assert!(!u.accepts(&StepOutcome::Done));
}

#[test]
fn refused_name_ends_the_upload() {
    let mut u = Upload::new();
    perform(&mut u, StepOutcome::Done);
    perform(&mut u, StepOutcome::Done);
    perform(&mut u, StepOutcome::Done);
    perform(&mut u, StepOutcome::SizeRead(3));
    match perform(&mut u, StepOutcome::Refused(TransferError::MissingFileName)) {
        UploadAction::Aborted(e) => assert_eq!(e.message(), "No se pudo obtener el nombre del archivo"),
        _ => panic!("expected the name error"),
    }
}

#[test]
fn outcomes_must_fit_the_step() {
    let u = Upload::new();
    assert!(!u.accepts(&StepOutcome::SizeRead(1)));
    assert!(!u.accepts(&StepOutcome::BytesRead(1)));
    assert!(!u.accepts(&StepOutcome::Refused(TransferError::MissingFileName)));
    assert!(u.accepts(&StepOutcome::Done));
}
