//! What the library decides about talking to the engine bridge: the
//! events its poller hands over, and the checked arguments of a launch.
//! The bridge calls themselves are made by the application around it.

use vstd::prelude::*;
use crate::notice::Notice;

verus! {

/// Events delivered from the notice poller to the interface.
#[derive(Debug)]
pub enum Event {
    Notice(Notice),
    /// A line came back from the bridge that wasn't valid JSON. Surfaced
    /// so it isn't silently dropped, but shouldn't normally happen.
    Unparsed(String),
}

/// Why a launch request could not be handed to the bridge.
#[derive(Debug, Clone, Copy, PartialEq, Eq)]
pub enum StartError {
    /// The named argument holds a NUL character.
    InvalidPath(&'static str),
}

/// The arguments of a launch, each free of NUL characters. An empty
/// server list path or egress region is passed as absent.
#[derive(Debug)]
pub struct LaunchArgs {
    pub config_path: String,
    pub server_list_path: Option<String>,
    pub data_root_directory: String,
    pub egress_region: Option<String>,
}

/// A launch request as plain texts.
pub struct LaunchRequest {
    pub config_path: Seq<char>,
    pub server_list_path: Option<Seq<char>>,
    pub data_root_directory: Seq<char>,
    pub egress_region: Option<Seq<char>>,
}

impl View for LaunchArgs {
    type V = LaunchRequest;

    open spec fn view(&self) -> LaunchRequest {
        LaunchRequest {
            config_path: self.config_path@,
            server_list_path: match self.server_list_path {
                Some(s) => Some(s@),
                None => None,
            },
            data_root_directory: self.data_root_directory@,
            egress_region: match self.egress_region {
                Some(s) => Some(s@),
                None => None,
            },
        }
    }
}

/// Whether a text holds a NUL character.
pub open spec fn has_nul(s: Seq<char>) -> bool {
    s.contains('\0')
}

/// `None` for the empty text, the text otherwise.
pub open spec fn present(s: Seq<char>) -> Option<Seq<char>> {
    if s.len() == 0 { None } else { Some(s) }
}

/// The launch request for the given texts, or the name of the first of
/// them (in the order config path, data root directory, server list path,
/// egress region) that holds a NUL character.
pub open spec fn launch_request(
    config_path: Seq<char>,
    server_list_path: Seq<char>,
    data_root_directory: Seq<char>,
    egress_region: Seq<char>,
) -> Result<LaunchRequest, Seq<char>> {
    if has_nul(config_path) {
        Err("config path"@)
    } else if has_nul(data_root_directory) {
        Err("data root directory"@)
    } else if has_nul(server_list_path) {
        Err("server list path"@)
    } else if has_nul(egress_region) {
        Err("egress region"@)
    } else {
        Ok(LaunchRequest {
            config_path,
            server_list_path: present(server_list_path),
            data_root_directory,
            egress_region: present(egress_region),
        })
    }
}

/// A launch request goes ahead exactly when none of the four texts holds a
/// NUL character; it then carries the config path and the data root
/// directory unchanged, and the server list path and the egress region
/// unchanged, or absent when empty. A refusal names a text that holds a
/// NUL, and every text before it (config path, data root directory,
/// server list path, egress region) holds none.
pub proof fn launch_request_checks_each_text(
    config_path: Seq<char>,
    server_list_path: Seq<char>,
    data_root_directory: Seq<char>,
    egress_region: Seq<char>,
)
    ensures
        ({
            let r = launch_request(config_path, server_list_path, data_root_directory, egress_region);
            &&& r is Ok <==> !has_nul(config_path) && !has_nul(server_list_path)
                && !has_nul(data_root_directory) && !has_nul(egress_region)
            &&& r matches Ok(q) ==> {
                &&& q.config_path == config_path
                &&& q.data_root_directory == data_root_directory
                &&& (q.server_list_path is None <==> server_list_path.len() == 0)
                &&& (q.server_list_path matches Some(s) ==> s == server_list_path)
                &&& (q.egress_region is None <==> egress_region.len() == 0)
                &&& (q.egress_region matches Some(e) ==> e == egress_region)
            }
            &&& r == Err::<LaunchRequest, Seq<char>>("config path"@) <==> has_nul(config_path)
            &&& r == Err::<LaunchRequest, Seq<char>>("data root directory"@) <==> !has_nul(config_path)
                && has_nul(data_root_directory)
            &&& r == Err::<LaunchRequest, Seq<char>>("server list path"@) <==> !has_nul(config_path)
                && !has_nul(data_root_directory) && has_nul(server_list_path)
            &&& r == Err::<LaunchRequest, Seq<char>>("egress region"@) <==> !has_nul(config_path)
                && !has_nul(data_root_directory) && !has_nul(server_list_path) && has_nul(egress_region)
        }),
{
    reveal_strlit("config path");
    reveal_strlit("data root directory");
    reveal_strlit("server list path");
    reveal_strlit("egress region");
    assert("config path"@.len() == 11);
    assert("data root directory"@.len() == 19);
    assert("server list path"@.len() == 16);
    assert("egress region"@.len() == 13);
}

/// The message of a launch refusal for the argument named `which`.
pub open spec fn start_error_message(which: Seq<char>) -> Seq<char> {
    which + " contains a NUL byte and cannot be passed to the bridge"@
}

fn contains_nul(s: &str) -> (r: bool)
    ensures
        r == has_nul(s@),
{
    let n = s.unicode_len();
    let mut i: usize = 0;
    while i < n
        invariant
            n == s@.len(),
            i <= n,
            forall|j: int| 0 <= j < i ==> s@[j] != '\0',
        decreases n - i,
    {
        if s.get_char(i) == '\0' {
            return true;
        }
        i = i + 1;
    }
    false
}

fn present_string(s: &str) -> (r: Option<String>)
    ensures
        match r {
            Some(t) => present(s@) == Some(t@),
            None => present(s@) is None,
        },
{
    if s.unicode_len() == 0 {
        None
    } else {
        Some(String::from_str(s))
    }
}

impl StartError {
    /// The name of the refused argument.
    pub open spec fn which(self) -> Seq<char> {
        match self {
            StartError::InvalidPath(w) => w@,
        }
    }

    /// The text the refusal is reported with.
    pub fn message(&self) -> (s: String)
        ensures
            s@ == start_error_message(self.which()),
    {
        match self {
            StartError::InvalidPath(which) => {
                let mut s = String::from_str(which);
                s.append(" contains a NUL byte and cannot be passed to the bridge");
                s
            },
        }
    }
}

impl LaunchArgs {
    /// Checks the arguments of a launch. `server_list_path` and
    /// `egress_region` may be empty, meaning none and no preference.
    pub fn prepare(
        config_path: &str,
        server_list_path: &str,
        data_root_directory: &str,
        egress_region: &str,
    ) -> (r: Result<LaunchArgs, StartError>)
        ensures
            match r {
                Ok(a) => launch_request(config_path@, server_list_path@, data_root_directory@,
                    egress_region@) == Ok::<LaunchRequest, Seq<char>>(a@),
                Err(e) => launch_request(config_path@, server_list_path@, data_root_directory@,
                    egress_region@) == Err::<LaunchRequest, Seq<char>>(e.which()),
            },
    {
        if contains_nul(config_path) {
            return Err(StartError::InvalidPath("config path"));
        }
        if contains_nul(data_root_directory) {
            return Err(StartError::InvalidPath("data root directory"));
        }
        if contains_nul(server_list_path) {
            return Err(StartError::InvalidPath("server list path"));
        }
        if contains_nul(egress_region) {
            return Err(StartError::InvalidPath("egress region"));
        }
        let args = LaunchArgs {
            config_path: String::from_str(config_path),
            server_list_path: present_string(server_list_path),
            data_root_directory: String::from_str(data_root_directory),
            egress_region: present_string(egress_region),
        };
        Ok(args)
    }
}

} // verus!
