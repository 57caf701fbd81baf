use copy_dvd::config::ServerConfig;
use copy_dvd::error::AppError;
use copy_dvd::upload::{create_upload_task, determine_upload_method, upload_outcome, UploadMethod};

fn server(password: Option<&str>) -> ServerConfig {
    ServerConfig {
        host: "nas.local".to_string(),
        username: "me".to_string(),
        password: password.map(|p| p.to_string()),
        path: "/srv/movies//".to_string(),
    }
}

#[test]
fn remote_path_joins_server_movie_and_file() {
    let t = create_upload_task("/out/Title01.mp4", &server(None), "Film");
    assert_eq!(t.remote_path, "/srv/movies/Film/Title01.mp4");
    assert_eq!(t.local_path, "/out/Title01.mp4");
    let t = create_upload_task("/", &server(None), "Film");
    assert_eq!(t.remote_path, "/srv/movies/Film/movie.mp4");
}

#[test]
fn upload_tools_are_chosen() {
    assert_eq!(determine_upload_method(true, true, true), UploadMethod::Rsync);
    assert_eq!(determine_upload_method(false, true, true), UploadMethod::Scp);
    assert_eq!(determine_upload_method(true, false, false), UploadMethod::Sftp);
}

#[test]
fn commands_use_sshpass_with_a_password() {
    let t = create_upload_task("/out/a.mp4", &server(Some("pw")), "Film");
    let (p, a) = t.upload_command(UploadMethod::Rsync);
    assert_eq!(p, "sshpass");
    assert_eq!(a, vec!["-p", "pw", "rsync", "-avz", "--progress", "/out/a.mp4", "me@nas.local:/srv/movies/Film/a.mp4"]);
    let t = create_upload_task("/out/a.mp4", &server(Some("")), "Film");
    let (p, a) = t.upload_command(UploadMethod::Sftp);
    assert_eq!(p, "scp");
    assert_eq!(a, vec!["/out/a.mp4", "me@nas.local:/srv/movies/Film/a.mp4"]);
}

#[test]
fn outcomes_and_missing_files() {
    let t = create_upload_task("/out/a.mp4", &server(None), "Film");
    assert!(t.check_local_file(true).is_ok());
    match t.check_local_file(false) {
        Err(AppError::UploadFailed(m)) => assert_eq!(m, "File not found: /out/a.mp4"),
        _ => panic!("expected an upload error"),
    }
    assert!(upload_outcome(UploadMethod::Rsync, true, "").is_ok());
    match upload_outcome(UploadMethod::Scp, false, "denied") {
        Err(AppError::UploadFailed(m)) => assert_eq!(m, "scp failed: denied"),
        _ => panic!("expected an upload error"),
    }
}
