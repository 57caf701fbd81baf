//! Uploading ripped files to a server: where a file goes, which tool sends it,
//! the command line of that tool, and what its exit means.

use vstd::prelude::*;
use crate::config::ServerConfig;
use crate::error::AppError;
use crate::paths::{file_name, path_file_name};
use crate::text::{chars_of, owned, push_str, str_equal, string_from_chars, string_views, trim_end_char, trim_end_matches_char};

verus! {

/// Represents an upload task
#[derive(Debug)]
pub struct UploadTask {
    pub local_path: String,
    pub remote_path: String,
    pub server_config: ServerConfig,
}

/// The tools a file can be sent with.
#[derive(Debug, Clone, Copy, PartialEq, Eq, Structural)]
pub enum UploadMethod {
    Rsync,
    Scp,
    Sftp,
}

/// The name under which a local file is stored remotely: its final name, or
/// `movie.mp4` when the path has none.
pub open spec fn upload_file_name(local_path: Seq<char>) -> Seq<char> {
    match file_name(local_path) {
        Some(n) => n,
        None => "movie.mp4"@,
    }
}

/// Where a file is stored on the server: the server directory without
/// trailing slashes, then the movie's directory, then the file's name.
pub open spec fn remote_path_for(server_path: Seq<char>, movie_name: Seq<char>, local_path: Seq<char>) -> Seq<char> {
    trim_end_char(server_path, '/') + "/"@ + movie_name + "/"@ + upload_file_name(local_path)
}

/// Create an upload task for a ripped DVD file
pub fn create_upload_task(local_path: &str, server_config: &ServerConfig, movie_name: &str) -> (r: UploadTask)
    ensures
        r.local_path@ == local_path@,
        r.remote_path@ == remote_path_for(server_config.path@, movie_name@, local_path@),
        r.server_config == *server_config,
{
    let filename = match path_file_name(local_path) {
        Some(n) => n,
        None => owned("movie.mp4"),
    };
    let p = chars_of(server_config.path.as_str());
    let base = trim_end_matches_char(p.as_slice(), '/');
    let mut remote = string_from_chars(base.as_slice());
    push_str(&mut remote, "/");
    push_str(&mut remote, movie_name);
    push_str(&mut remote, "/");
    push_str(&mut remote, filename.as_str());
    UploadTask { local_path: owned(local_path), remote_path: remote, server_config: server_config.duplicate() }
}

/// The tool used on a machine: rsync where the system is Unix-like and rsync
/// runs, else scp where it runs, else SFTP.
pub open spec fn spec_upload_method(unix: bool, rsync_available: bool, scp_available: bool) -> UploadMethod {
    if unix && rsync_available {
        UploadMethod::Rsync
    } else if scp_available {
        UploadMethod::Scp
    } else {
        UploadMethod::Sftp
    }
}

/// Chooses the upload tool from what the machine offers.
pub fn determine_upload_method(unix: bool, rsync_available: bool, scp_available: bool) -> (r: UploadMethod)
    ensures
        r == spec_upload_method(unix, rsync_available, scp_available),
{
    if unix && rsync_available {
        UploadMethod::Rsync
    } else if scp_available {
        UploadMethod::Scp
    } else {
        UploadMethod::Sftp
    }
}

impl UploadMethod {
    /// The tool named `rsync`, `scp` or `sftp`.
    pub fn from_name(name: &str) -> (r: Option<UploadMethod>)
        ensures
            name@ == "rsync"@ ==> r == Some(UploadMethod::Rsync),
            name@ == "scp"@ ==> r == Some(UploadMethod::Scp),
            name@ == "sftp"@ ==> r == Some(UploadMethod::Sftp),
            !(name@ == "rsync"@ || name@ == "scp"@ || name@ == "sftp"@) ==> r is None,
    {
        proof {
            reveal_strlit("rsync");
            reveal_strlit("scp");
            reveal_strlit("sftp");
            assert("scp"@.len() != "rsync"@.len());
            assert("sftp"@.len() != "rsync"@.len());
            assert("sftp"@.len() != "scp"@.len());
        }
        if str_equal(name, "rsync") {
            Some(UploadMethod::Rsync)
        } else if str_equal(name, "scp") {
            Some(UploadMethod::Scp)
        } else if str_equal(name, "sftp") {
            Some(UploadMethod::Sftp)
        } else {
            None
        }
    }
}

/// The password to hand to `sshpass`, if a non-empty one is configured.
pub open spec fn given_password(c: ServerConfig) -> Option<Seq<char>> {
    match c.password {
        Some(p) => if p@.len() > 0 {
            Some(p@)
        } else {
            None
        },
        None => None,
    }
}

/// The `user@host:path` target of a task.
pub open spec fn remote_target(task: UploadTask) -> Seq<char> {
    task.server_config.username@ + "@"@ + task.server_config.host@ + ":"@ + task.remote_path@
}

/// The program and arguments that send a task with a tool. SFTP is sent with
/// scp. With a password the tool runs under `sshpass -p`.
pub open spec fn spec_upload_command(task: UploadTask, method: UploadMethod) -> (Seq<char>, Seq<Seq<char>>) {
    let tool: Seq<Seq<char>> = match method {
        UploadMethod::Rsync => seq!["rsync"@, "-avz"@, "--progress"@],
        _ => seq!["scp"@],
    };
    let paths = seq![task.local_path@, remote_target(task)];
    match given_password(task.server_config) {
        Some(p) => ("sshpass"@, seq!["-p"@, p] + tool + paths),
        None => (tool[0], tool.drop_first() + paths),
    }
}

impl UploadTask {
    /// A task can only be sent when its local file exists.
    pub fn check_local_file(&self, exists: bool) -> (r: Result<(), AppError>)
        ensures
            exists ==> r is Ok,
            !exists ==> (r matches Err(AppError::UploadFailed(m)) && m@ == "File not found: "@ + self.local_path@),
    {
        if exists {
            Ok(())
        } else {
            let mut m = owned("File not found: ");
            push_str(&mut m, self.local_path.as_str());
            Err(AppError::UploadFailed(m))
        }
    }

    /// The program and its arguments for uploading the file by `method`.
    pub fn upload_command(&self, method: UploadMethod) -> (r: (String, Vec<String>))
        ensures
            r.0@ == spec_upload_command(*self, method).0,
            string_views(r.1@) == spec_upload_command(*self, method).1,
    {
        let mut target = self.server_config.username.clone();
        push_str(&mut target, "@");
        push_str(&mut target, self.server_config.host.as_str());
        push_str(&mut target, ":");
        push_str(&mut target, self.remote_path.as_str());
        let password: Option<&String> = match &self.server_config.password {
            Some(p) => if !p.as_str().is_empty() {
                Some(p)
            } else {
                None
            },
            None => None,
        };
        let mut args: Vec<String> = Vec::new();
        let program = match password {
            Some(p) => {
                args.push(owned("-p"));
                args.push(p.clone());
                match method {
                    UploadMethod::Rsync => args.push(owned("rsync")),
                    _ => args.push(owned("scp")),
                }
                owned("sshpass")
            },
            None => match method {
                UploadMethod::Rsync => owned("rsync"),
                _ => owned("scp"),
            },
        };
        match method {
            UploadMethod::Rsync => {
                args.push(owned("-avz"));
                args.push(owned("--progress"));
            },
            _ => {},
        }
        args.push(self.local_path.clone());
        args.push(target);
        proof {
            let tool: Seq<Seq<char>> = match method {
                UploadMethod::Rsync => seq!["rsync"@, "-avz"@, "--progress"@],
                _ => seq!["scp"@],
            };
            let paths = seq![self.local_path@, remote_target(*self)];
            match given_password(self.server_config) {
                Some(p) => {
                    assert(string_views(args@) =~= seq!["-p"@, p] + tool + paths);
                },
                None => {
                    assert(string_views(args@) =~= tool.drop_first() + paths);
                },
            }
        }
        (program, args)
    }
}

/// The name of the program a method runs.
pub open spec fn tool_name(method: UploadMethod) -> Seq<char> {
    match method {
        UploadMethod::Rsync => "rsync"@,
        _ => "scp"@,
    }
}

/// What the exit of the upload tool means: success, or an upload failure
/// that quotes the tool's error output.
pub fn upload_outcome(method: UploadMethod, success: bool, stderr: &str) -> (r: Result<(), AppError>)
    ensures
        success ==> r is Ok,
        !success ==> (r matches Err(AppError::UploadFailed(m)) && m@ == tool_name(method) + " failed: "@ + stderr@),
{
    if success {
        return Ok(());
    }
    let mut m = match method {
        UploadMethod::Rsync => owned("rsync"),
        _ => owned("scp"),
    };
    push_str(&mut m, " failed: ");
    push_str(&mut m, stderr);
    Err(AppError::UploadFailed(m))
}

/// Every upload command sends the file: whatever the tool and whether a
/// password is given, its last two arguments are the local file (the source)
/// and then `user@host:remote_path` (the destination). The program is the
/// tool itself, or `sshpass` when a password is given.
pub proof fn lemma_upload_sends_local_to_remote(task: UploadTask, method: UploadMethod)
    ensures
        ({
            let (program, args) = spec_upload_command(task, method);
            &&& args.len() >= 2
            &&& args[args.len() - 2] == task.local_path@
            &&& args[args.len() - 1] == task.server_config.username@ + "@"@ + task.server_config.host@ + ":"@
                + task.remote_path@
            &&& given_password(task.server_config) is None ==> program == (match method {
                UploadMethod::Rsync => "rsync"@,
                _ => "scp"@,
            })
            &&& given_password(task.server_config) is Some ==> program == "sshpass"@
        }),
{
}

} // verus!
