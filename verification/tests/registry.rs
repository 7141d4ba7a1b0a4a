//! Machine discovery, lookup and the small string primitives.

use vmman::conf::ConfError;
use vmman::repo::parse_repo_name;
use vmman::strutil::{basename, str_ends_with, str_eq, trim_end, u64_to_dec};
use vmman::sysfs::{build_path, tap_device_path, vfio_group_device_path};
use vmman::vm::{load_vm, VmManager};

#[test]
fn registry_keeps_recognized_files_in_order() {
    let paths = vec![
        String::from("/home/op/vm/alpha.toml"),
        String::from("/home/op/vm/readme.txt"),
        String::from("/home/op/vm/beta.toml"),
        String::from("/home/op/vm/.toml"),
        String::from("/home/op/vm/notes"),
        String::from("gamma.toml"),
    ];
    let mgr = VmManager::new(&paths);
    let names: Vec<&str> = mgr.vmconfs.iter().map(|c| c.name.as_str()).collect();
    assert_eq!(names, vec!["alpha", "beta", "gamma"]);
    assert_eq!(mgr.vmconfs[0].filename, "/home/op/vm/alpha.toml");
    assert_eq!(mgr.vmconfs[2].filename, "gamma.toml");
    assert_eq!(mgr.vmconfs[0].uid, 0);
    assert!(mgr.vmconfs[0].modules.is_empty());
}

#[test]
fn load_vm_selects_by_name() {
    let paths = vec![
        String::from("/vm/alpha.toml"),
        String::from("/vm/beta.toml"),
    ];
    let mgr = VmManager::new(&paths);
    let args = vec![String::from("vm-run"), String::from("beta")];
    assert_eq!(load_vm(&mgr, &args).unwrap(), 1);
}

#[test]
fn load_vm_without_name_fails() {
    let mgr = VmManager::new(&vec![String::from("/vm/alpha.toml")]);
    let err = load_vm(&mgr, &vec![String::from("vm-run")]).unwrap_err();
    assert!(matches!(err, ConfError::MissingMachineName));
    assert_eq!(err.message(), "Expecting a machine name");
}

#[test]
fn load_vm_unknown_machine_fails() {
    let mgr = VmManager::new(&vec![String::from("/vm/alpha.toml")]);
    let args = vec![String::from("vm-run"), String::from("zeta")];
    let err = load_vm(&mgr, &args).unwrap_err();
    assert!(matches!(&err, ConfError::UnknownMachine { name } if name == "zeta"));
    assert_eq!(err.message(), "Cannot find machine zeta");
}

#[test]
fn build_path_joins_components() {
    assert_eq!(
        build_path("/sys/class/net", "eth0", "ifindex"),
        "/sys/class/net/eth0/ifindex"
    );
    assert_eq!(
        build_path("/sys/bus/pci/devices", "0000:01:00.0", "driver_override"),
        "/sys/bus/pci/devices/0000:01:00.0/driver_override"
    );
}

#[test]
fn device_paths() {
    assert_eq!(tap_device_path("12"), "/dev/tap12");
    assert_eq!(vfio_group_device_path("3"), "/dev/vfio/3");
}

#[test]
fn trim_end_removes_trailing_whitespace() {
    assert_eq!(trim_end("12\n"), "12");
    assert_eq!(trim_end("a b \t\r\n"), "a b");
    assert_eq!(trim_end(""), "");
    assert_eq!(trim_end("  x"), "  x");
}

#[test]
fn decimal_rendering() {
    assert_eq!(u64_to_dec(0), "0");
    assert_eq!(u64_to_dec(7), "7");
    assert_eq!(u64_to_dec(10), "10");
    assert_eq!(u64_to_dec(12345), "12345");
    assert_eq!(u64_to_dec(u64::MAX), "18446744073709551615");
}

#[test]
fn string_helpers() {
    assert!(str_eq("abc", "abc"));
    assert!(!str_eq("abc", "abd"));
    assert!(!str_eq("abc", "ab"));
    assert!(str_ends_with("machine.toml", ".toml"));
    assert!(!str_ends_with("machine.txt", ".toml"));
    assert!(!str_ends_with("ml", ".toml"));
}

#[test]
fn repo_names_split_at_the_single_separator() {
    let (vendor, name) = parse_repo_name("generic/alpine312").unwrap();
    assert_eq!(vendor, "generic");
    assert_eq!(name, "alpine312");
}

#[test]
fn repo_names_of_other_shapes_fail() {
    let err = parse_repo_name("noslash").unwrap_err();
    assert!(matches!(&err, ConfError::InvalidRepoName { name } if name == "noslash"));
    assert_eq!(err.message(), "Invalid repo name noslash");
    assert!(parse_repo_name("a/b/c").is_err());
    let (vendor, name) = parse_repo_name("a/").unwrap();
    assert_eq!(vendor, "a");
    assert_eq!(name, "");
}

#[test]
fn basename_takes_the_last_component() {
    assert_eq!(basename("/sys/bus/pci/drivers/vfio-pci"), "vfio-pci");
    assert_eq!(basename("plain"), "plain");
    assert_eq!(basename("dir/"), "");
}
