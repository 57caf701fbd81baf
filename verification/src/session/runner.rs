//! The choices a command-line run makes from its arguments and the
//! configuration.

use vstd::prelude::*;
use crate::cli::Args;
use crate::config::{Config, ServerConfig};
use crate::upload::{determine_upload_method, spec_upload_method, UploadMethod};

verus! {

/// What a run rips and how.
#[derive(Debug)]
pub struct RipPlan {
    pub output_dir: String,
    pub selected_titles: Option<Vec<usize>>,
    pub chapter_split: bool,
    pub threads: usize,
    /// The HandBrake preset.
    pub preset: String,
    /// The HandBrake quality.
    pub quality: u32,
}

/// The titles chosen: the main feature alone when asked for (all titles when
/// the disc has none), else the titles named, else all; an empty choice means
/// all titles.
pub open spec fn spec_selection(main_feature: bool, main_number: Option<usize>, titles: Option<Seq<usize>>) -> Option<Seq<usize>> {
    let chosen = if main_feature {
        match main_number {
            Some(n) => Some(seq![n]),
            None => None,
        }
    } else {
        titles
    };
    match chosen {
        Some(v) => if v.len() > 0 {
            Some(v)
        } else {
            None
        },
        None => None,
    }
}

/// What is ripped follows the request: without the main-feature option, a
/// non-empty list of titles is kept exactly as given, and only an absent or
/// empty list means every title; with it, the disc's main feature alone is
/// chosen when the disc has one, and every title otherwise.
pub proof fn lemma_selection_follows_request(main_number: Option<usize>, titles: Option<Seq<usize>>)
    ensures
        forall|v: Seq<usize>| titles == Some(v) && v.len() > 0 ==> spec_selection(false, main_number, titles) == Some(v),
        (titles is None || titles == Some(Seq::<usize>::empty())) ==> spec_selection(false, main_number, titles)
            is None,
        main_number matches Some(n) ==> spec_selection(true, main_number, titles) == Some(seq![n]),
        main_number is None ==> spec_selection(true, main_number, titles) is None,
{
}

/// Plans a run: output into the directory given or the configured one, the
/// selected titles, chapter splitting and thread count as given or as
/// configured. `main_number` is the number of the disc's main feature.
pub fn plan_rip(args: &Args, config: &Config, main_number: Option<usize>) -> (r: RipPlan)
    ensures
        r.output_dir@ == (match args.output {
            Some(o) => o@,
            None => config.output_dir@,
        }),
        (match r.selected_titles {
            Some(v) => Some(v@),
            None => None,
        }) == spec_selection(args.main_feature, main_number, match args.titles {
            Some(v) => Some(v@),
            None => None,
        }),
        r.chapter_split == (match args.chapter_split {
            Some(c) => c,
            None => config.chapter_split,
        }),
        r.threads == (match args.threads {
            Some(t) => t,
            None => config.thread_count,
        }),
        r.preset@ == (match args.preset {
            Some(p) => p@,
            None => "Fast 1080p30"@,
        }),
        r.quality == (match args.quality {
            Some(q) => q,
            None => 20,
        }),
{
    let output_dir = match &args.output {
        Some(o) => o.clone(),
        None => config.output_dir.clone(),
    };
    let chosen: Option<Vec<usize>> = if args.main_feature {
        match main_number {
            Some(n) => {
                let mut v: Vec<usize> = Vec::new();
                v.push(n);
                assert(v@ =~= seq![n]);
                Some(v)
            },
            None => None,
        }
    } else {
        match &args.titles {
            Some(t) => Some(t.clone()),
            None => None,
        }
    };
    let selected_titles = match chosen {
        Some(v) => if v.len() > 0 {
            Some(v)
        } else {
            None
        },
        None => None,
    };
    RipPlan {
        output_dir,
        selected_titles,
        chapter_split: match args.chapter_split {
            Some(c) => c,
            None => config.chapter_split,
        },
        threads: match args.threads {
            Some(t) => t,
            None => config.thread_count,
        },
        preset: match &args.preset {
            Some(p) => p.clone(),
            None => crate::text::owned("Fast 1080p30"),
        },
        quality: match args.quality {
            Some(q) => q,
            None => 20,
        },
    }
}

/// The name a run's uploads are filed under: the main feature's description,
/// or `DVD_Rip`.
pub fn movie_name(main_description: Option<String>) -> (r: String)
    ensures
        r@ == (match main_description {
            Some(d) => d@,
            None => "DVD_Rip"@,
        }),
{
    match main_description {
        Some(d) => d,
        None => crate::text::owned("DVD_Rip"),
    }
}

/// A text given on the command line, else the configured one, else nothing.
pub open spec fn given_or(given: Option<String>, configured: Option<Seq<char>>) -> Seq<char> {
    match given {
        Some(g) => g@,
        None => match configured {
            Some(c) => c,
            None => Seq::empty(),
        },
    }
}

/// The server a run uploads to: the host given on the command line, else the
/// configured one; user name and remote directory as given, else as
/// configured; the password as configured. With neither a host given nor a
/// server configured there is none.
pub open spec fn upload_server_ok(args: Args, configured: Option<ServerConfig>, r: Option<ServerConfig>) -> bool {
    match (args.server, configured) {
        (None, None) => r is None,
        _ => r matches Some(s) && {
            &&& s.host@ == given_or(args.server, match configured {
                Some(c) => Some(c.host@),
                None => None,
            })
            &&& s.username@ == given_or(args.username, match configured {
                Some(c) => Some(c.username@),
                None => None,
            })
            &&& s.path@ == given_or(args.remote_path, match configured {
                Some(c) => Some(c.path@),
                None => None,
            })
            &&& s.password == match configured {
                Some(c) => c.password,
                None => None,
            }
        },
    }
}

fn given_or_exec(given: &Option<String>, configured: Option<&String>) -> (r: String)
    ensures
        r@ == given_or(*given, match configured {
            Some(c) => Some(c@),
            None => None,
        }),
{
    match given {
        Some(g) => g.clone(),
        None => match configured {
            Some(c) => c.clone(),
            None => String::new(),
        },
    }
}

/// Chooses the server a run uploads to from the command line and the
/// configuration.
pub fn upload_server(args: &Args, configured: &Option<ServerConfig>) -> (r: Option<ServerConfig>)
    ensures
        upload_server_ok(*args, *configured, r),
{
    if args.server.is_none() && configured.is_none() {
        return None;
    }
    let host = given_or_exec(&args.server, match configured {
        Some(c) => Some(&c.host),
        None => None,
    });
    let username = given_or_exec(&args.username, match configured {
        Some(c) => Some(&c.username),
        None => None,
    });
    let path = given_or_exec(&args.remote_path, match configured {
        Some(c) => Some(&c.path),
        None => None,
    });
    let password = match configured {
        Some(c) => c.password.clone(),
        None => None,
    };
    Some(ServerConfig { host, username, password, path })
}

/// The upload tool: the one given on the command line, else the one the
/// machine offers (rsync on Unix when present, then scp, then sftp).
pub fn chosen_upload_method(given: Option<UploadMethod>, unix: bool, rsync_available: bool, scp_available: bool) -> (r: UploadMethod)
    ensures
        r == (match given {
            Some(m) => m,
            None => spec_upload_method(unix, rsync_available, scp_available),
        }),
{
    match given {
        Some(m) => m,
        None => determine_upload_method(unix, rsync_available, scp_available),
    }
}

} // verus!
