//! How a run starts: the arguments it is given, what it asks of the host
//! before the network is up, and the directories it needs.

use crate::opds::{views, InstanceView};
use crate::path::{join, joined};
use crate::settings::{Settings, SettingsView};
use crate::text::same;
use vstd::prelude::*;
use vstd::string::*;

verus! {

/// The arguments of a run, in the order in which they are given.
#[derive(Debug)]
pub struct Arguments {
    /// The root of the library of the reader.
    pub library_path: String,
    /// The directory below which the downloads are saved.
    pub save_path: String,
    /// Whether the network interface is switched on.
    pub wifi: bool,
    /// Whether the network can be reached already.
    pub online: bool,
}

/// The value of [`Arguments`].
pub struct ArgumentsView {
    pub library_path: Seq<char>,
    pub save_path: Seq<char>,
    pub wifi: bool,
    pub online: bool,
}

impl View for Arguments {
    type V = ArgumentsView;

    open spec fn view(&self) -> ArgumentsView {
        ArgumentsView {
            library_path: self.library_path@,
            save_path: self.save_path@,
            wifi: self.wifi,
            online: self.online,
        }
    }
}

/// What is wrong with the arguments.
#[derive(Debug, Clone, Copy, PartialEq, Eq, Structural)]
pub enum ArgumentError {
    MissingLibraryPath,
    MissingSavePath,
    MissingWifiStatus,
    BadWifiStatus,
    MissingOnlineStatus,
    BadOnlineStatus,
}

/// The text that describes what is wrong with the arguments.
pub open spec fn argument_error_text(e: ArgumentError) -> Seq<char> {
    match e {
        ArgumentError::MissingLibraryPath => "missing argument: library path"@,
        ArgumentError::MissingSavePath => "missing argument: save path"@,
        ArgumentError::MissingWifiStatus => "missing argument: wifi status"@,
        ArgumentError::MissingOnlineStatus => "missing argument: online status"@,
        ArgumentError::BadWifiStatus | ArgumentError::BadOnlineStatus =>
            "provided string was not `true` or `false`"@,
    }
}

impl ArgumentError {
    /// What to tell the user.
    pub fn message(&self) -> (r: String)
        ensures
            r@ == argument_error_text(*self),
    {
        match self {
            ArgumentError::MissingLibraryPath => String::from_str("missing argument: library path"),
            ArgumentError::MissingSavePath => String::from_str("missing argument: save path"),
            ArgumentError::MissingWifiStatus => String::from_str("missing argument: wifi status"),
            ArgumentError::MissingOnlineStatus => String::from_str(
                "missing argument: online status",
            ),
            ArgumentError::BadWifiStatus | ArgumentError::BadOnlineStatus => String::from_str(
                "provided string was not `true` or `false`",
            ),
        }
    }
}

/// The truth value that `text` spells: `true` or `false`, and nothing else.
pub open spec fn flag_of(text: Seq<char>) -> Option<bool> {
    if text == "true"@ {
        Some(true)
    } else if text == "false"@ {
        Some(false)
    } else {
        None
    }
}

/// The arguments that `args` hold. What follows the fourth is ignored.
pub open spec fn arguments_of(args: Seq<Seq<char>>) -> Result<ArgumentsView, ArgumentError> {
    if args.len() < 1 {
        Err(ArgumentError::MissingLibraryPath)
    } else if args.len() < 2 {
        Err(ArgumentError::MissingSavePath)
    } else if args.len() < 3 {
        Err(ArgumentError::MissingWifiStatus)
    } else if flag_of(args[2]) is None {
        Err(ArgumentError::BadWifiStatus)
    } else if args.len() < 4 {
        Err(ArgumentError::MissingOnlineStatus)
    } else if flag_of(args[3]) is None {
        Err(ArgumentError::BadOnlineStatus)
    } else {
        Ok(
            ArgumentsView {
                library_path: args[0],
                save_path: args[1],
                wifi: flag_of(args[2])->0,
                online: flag_of(args[3])->0,
            },
        )
    }
}

/// Reads a truth value.
pub fn parse_flag(text: &str) -> (r: Option<bool>)
    ensures
        r == flag_of(text@),
{
    if same(text, "true") {
        Some(true)
    } else if same(text, "false") {
        Some(false)
    } else {
        None
    }
}

/// Reads the arguments of a run.
pub fn parse_arguments(args: &Vec<String>) -> (r: Result<Arguments, ArgumentError>)
    ensures
        match r {
            Ok(a) => arguments_of(views(args@)) == Ok::<ArgumentsView, ArgumentError>(a@),
            Err(e) => arguments_of(views(args@)) == Err::<ArgumentsView, ArgumentError>(e),
        },
{
    if args.len() < 1 {
        return Err(ArgumentError::MissingLibraryPath);
    }
    if args.len() < 2 {
        return Err(ArgumentError::MissingSavePath);
    }
    if args.len() < 3 {
        return Err(ArgumentError::MissingWifiStatus);
    }
    let wifi = match parse_flag(args[2].as_str()) {
        None => {
            return Err(ArgumentError::BadWifiStatus);
        },
        Some(flag) => flag,
    };
    if args.len() < 4 {
        return Err(ArgumentError::MissingOnlineStatus);
    }
    let online = match parse_flag(args[3].as_str()) {
        None => {
            return Err(ArgumentError::BadOnlineStatus);
        },
        Some(flag) => flag,
    };
    Ok(Arguments { library_path: args[0].clone(), save_path: args[1].clone(), wifi, online })
}

/// What a run asks of the host before it uses the network.
#[derive(Debug)]
pub enum HostRequest {
    /// Show this notice.
    Notify(String),
    /// Switch the network interface on or off.
    SetWifi(bool),
    /// Wait until the host says that the network is up.
    AwaitNetwork,
}

/// The value of a [`HostRequest`].
pub enum HostRequestView {
    Notify(Seq<char>),
    SetWifi(bool),
    AwaitNetwork,
}

impl View for HostRequest {
    type V = HostRequestView;

    open spec fn view(&self) -> HostRequestView {
        match self {
            HostRequest::Notify(m) => HostRequestView::Notify(m@),
            HostRequest::SetWifi(b) => HostRequestView::SetWifi(*b),
            HostRequest::AwaitNetwork => HostRequestView::AwaitNetwork,
        }
    }
}

/// What is asked of the host: nothing where the network can be reached;
/// else to switch the interface on where it is off, and to say when the
/// network is up.
pub open spec fn negotiation(wifi: bool, online: bool) -> Seq<HostRequestView> {
    if online {
        Seq::empty()
    } else if !wifi {
        seq![
            HostRequestView::Notify("Establishing a network connection."@),
            HostRequestView::SetWifi(true),
            HostRequestView::AwaitNetwork,
        ]
    } else {
        seq![
            HostRequestView::Notify("Waiting for the network to come up."@),
            HostRequestView::AwaitNetwork,
        ]
    }
}

/// What is asked of the host before the network is used.
pub fn negotiate_network(wifi: bool, online: bool) -> (r: Vec<HostRequest>)
    ensures
        views(r@) == negotiation(wifi, online),
{
    let mut r: Vec<HostRequest> = Vec::new();
    if !online {
        if !wifi {
            r.push(HostRequest::Notify(String::from_str("Establishing a network connection.")));
            r.push(HostRequest::SetWifi(true));
        } else {
            r.push(HostRequest::Notify(String::from_str("Waiting for the network to come up.")));
        }
        r.push(HostRequest::AwaitNetwork);
    }
    r
}

/// The directories that are made before the servers are visited: one for
/// each server where files are grouped by server, else none.
pub open spec fn server_directories(settings: SettingsView, save: Seq<char>) -> Seq<Seq<char>> {
    if settings.use_server_name_directories {
        settings.servers.map_values(|s: (Seq<char>, InstanceView)| joined(save, s.0))
    } else {
        Seq::empty()
    }
}

/// The directories that are made before the servers are visited.
pub fn directories_to_make(settings: &Settings, save_path: &str) -> (r: Vec<String>)
    ensures
        views(r@) == server_directories(settings@, save_path@),
{
    let mut r: Vec<String> = Vec::new();
    if settings.use_server_name_directories {
        let mut i: usize = 0;
        while i < settings.servers.len()
            invariant
                i <= settings.servers.len(),
                r@.len() == i,
                forall|j: int| 0 <= j < i ==> (#[trigger] r@[j])@ == joined(
                    save_path@,
                    settings.servers@[j].0@,
                ),
            decreases settings.servers.len() - i,
        {
            r.push(join(save_path, settings.servers[i].0.as_str()));
            i += 1;
        }
    }
    r
}

} // verus!
