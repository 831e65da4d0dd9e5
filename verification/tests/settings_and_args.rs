use plato_opds::args::{
    directories_to_make, negotiate_network, parse_arguments, parse_flag, ArgumentError, HostRequest,
};
use plato_opds::opds::Instance;
use plato_opds::settings::Settings;

fn strings(items: &[&str]) -> Vec<String> {
    items.iter().map(|s| s.to_string()).collect()
}

#[test]
fn default_settings() {
    let s = Settings::default();
    assert!(s.servers.is_empty());
    assert_eq!(s.preferred_file_types, vec!["application/epub+zip".to_string()]);
    assert!(s.use_server_name_directories);
    assert!(s.organize_by_file_type);
    assert_eq!(s.directory_for("epub"), Some(&"Books".to_string()));
    assert_eq!(s.directory_for("cbz"), Some(&"Comics".to_string()));
    assert_eq!(s.directory_for("pdf"), Some(&"Documents".to_string()));
    assert_eq!(s.directory_for("djvu"), None);
    assert_eq!(s.organization.len(), 3);
}

#[test]
fn a_directory_is_set_once() {
    let mut s = Settings::default();
    s.set_directory("cbz".to_string(), "Manga".to_string());
    s.set_directory("djvu".to_string(), "Scans".to_string());
    assert_eq!(s.organization.len(), 4);
    assert_eq!(s.directory_for("cbz"), Some(&"Manga".to_string()));
    assert_eq!(s.directory_for("djvu"), Some(&"Scans".to_string()));
    assert_eq!(s.directory_for("epub"), Some(&"Books".to_string()));
}

#[test]
fn a_server_is_set_once() {
    let mut s = Settings::default();
    let one = Instance { url: "http://one/opds".to_string(), username: None, password: None };
    let two = Instance { url: "http://two/opds".to_string(), username: None, password: None };
    let again = Instance { url: "http://one/new".to_string(), username: None, password: None };
    s.set_server("one".to_string(), one);
    s.set_server("two".to_string(), two);
    s.set_server("one".to_string(), again);
    assert_eq!(s.servers.len(), 2);
    assert_eq!(s.servers[0].0, "one");
    assert_eq!(s.servers[0].1.url, "http://one/new");
    assert_eq!(s.servers[1].0, "two");
    let copy = s.clone();
    assert_eq!(copy.servers.len(), 2);
    assert_eq!(copy.servers[1].1.url, "http://two/opds");
    assert_eq!(copy.organization, s.organization);
}

#[test]
fn flags_are_spelled_out() {
    assert_eq!(parse_flag("true"), Some(true));
    assert_eq!(parse_flag("false"), Some(false));
    assert_eq!(parse_flag("True"), None);
    assert_eq!(parse_flag("1"), None);
    assert_eq!(parse_flag(""), None);
}

#[test]
fn four_arguments_in_order() {
    let a = parse_arguments(&strings(&["/lib", "/lib/opds", "true", "false", "more"])).unwrap();
    assert_eq!(a.library_path, "/lib");
    assert_eq!(a.save_path, "/lib/opds");
    assert!(a.wifi);
    assert!(!a.online);
}

#[test]
fn each_argument_error() {
    let err = |items: &[&str]| parse_arguments(&strings(items)).unwrap_err();
    assert_eq!(err(&[]), ArgumentError::MissingLibraryPath);
    assert_eq!(err(&["/lib"]), ArgumentError::MissingSavePath);
    assert_eq!(err(&["/lib", "/save"]), ArgumentError::MissingWifiStatus);
    assert_eq!(err(&["/lib", "/save", "yes"]), ArgumentError::BadWifiStatus);
    assert_eq!(err(&["/lib", "/save", "yes", "no"]), ArgumentError::BadWifiStatus);
    assert_eq!(err(&["/lib", "/save", "true"]), ArgumentError::MissingOnlineStatus);
    assert_eq!(err(&["/lib", "/save", "true", "no"]), ArgumentError::BadOnlineStatus);
}

#[test]
fn network_negotiation() {
    assert!(negotiate_network(false, true).is_empty());
    assert!(negotiate_network(true, true).is_empty());
    let off = negotiate_network(false, false);
    assert_eq!(off.len(), 3);
    assert!(matches!(&off[0], HostRequest::Notify(m) if m == "Establishing a network connection."));
    assert!(matches!(&off[1], HostRequest::SetWifi(true)));
    assert!(matches!(&off[2], HostRequest::AwaitNetwork));
    let on = negotiate_network(true, false);
    assert_eq!(on.len(), 2);
    assert!(matches!(&on[0], HostRequest::Notify(m) if m == "Waiting for the network to come up."));
    assert!(matches!(&on[1], HostRequest::AwaitNetwork));
}

#[test]
fn directories_for_the_servers() {
    let mut s = Settings::default();
    s.set_server("lib1".to_string(), Instance::default());
    s.set_server("lib2".to_string(), Instance::default());
    assert_eq!(
        directories_to_make(&s, "/save"),
        vec!["/save/lib1".to_string(), "/save/lib2".to_string()]
    );
    s.use_server_name_directories = false;
    assert!(directories_to_make(&s, "/save").is_empty());
}

#[test]
fn argument_error_messages() {
    assert_eq!(ArgumentError::MissingLibraryPath.message(), "missing argument: library path");
    assert_eq!(ArgumentError::MissingSavePath.message(), "missing argument: save path");
    assert_eq!(ArgumentError::MissingWifiStatus.message(), "missing argument: wifi status");
    assert_eq!(ArgumentError::MissingOnlineStatus.message(), "missing argument: online status");
    assert_eq!(
        ArgumentError::BadWifiStatus.message(),
        "provided string was not `true` or `false`"
    );
    assert_eq!(
        ArgumentError::BadOnlineStatus.message(),
        "provided string was not `true` or `false`"
    );
}
