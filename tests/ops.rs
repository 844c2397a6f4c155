use bardock::config::Config;
use bardock::errors::{BardockError, CliError};
use bardock::ops::{
    file_name, generator_outcome, get_name, is_valid_package_name, needs_linker_config, prepare, ArgMatchesExt, Cli, Command,
    NewOptions,
    LIB_TEMPLATE, MACOS_CARGO_CONFIG,
};

fn opts(path: &str, name: Option<&str>) -> NewOptions {
    NewOptions::new(path.to_string(), name.map(|n| n.to_string())).unwrap()
}

#[test]
fn name_is_final_segment() {
    assert_eq!(get_name("/home/u/projects/foo", &opts("/home/u/projects/foo", None)).unwrap(), "foo");
    assert_eq!(get_name("foo", &opts("foo", None)).unwrap(), "foo");
    assert_eq!(file_name("a/b/c"), "c");
    assert_eq!(file_name("abc"), "abc");
    assert_eq!(file_name("a/"), "");
}

#[test]
fn given_name_wins() {
    assert_eq!(get_name("/tmp/foo", &opts("/tmp/foo", Some("bar"))).unwrap(), "bar");
}

#[test]
fn trailing_separator_gives_no_name() {
    let r = get_name("/tmp/foo/", &opts("/tmp/foo/", None));
    assert!(matches!(r, Err(BardockError::InvalidPathForName)));
    assert!(matches!(get_name("..", &opts("..", None)), Err(BardockError::InvalidPathForName)));
    assert!(matches!(get_name("", &opts("", None)), Err(BardockError::InvalidPathForName)));
}

#[test]
fn config_resolves_paths() {
    let c = Config::new("/work".to_string());
    assert_eq!(c.cwd(), "/work");
    assert_eq!(c.join("foo"), "/work/foo");
    assert_eq!(c.join("/abs/foo"), "/abs/foo");
    assert_eq!(Config::new("/".to_string()).join("foo"), "/foo");
}

#[test]
fn new_command_gives_options() {
    let c = Config::new("/work".to_string());
    let cli = Cli { command: Command::New { path: "foo".to_string(), name: Some("bar".to_string()) } };
    let o = cli.command.new_options(&c).unwrap();
    let without_name = Command::New { path: "/abs/p".to_string(), name: None };
    let w = without_name.new_options(&c).unwrap();
    assert_eq!(w.path, "/abs/p");
    assert!(w.name.is_none());
    assert_eq!(o.path, "/work/foo");
    assert_eq!(o.name.as_deref(), Some("bar"));
    assert_eq!(cli.command.value_of_path("name", &c).as_deref(), Some("/work/bar"));
    assert!(cli.command._value_of("other").is_none());
    let t = Command::Test { arg1: "a".to_string(), arg2: None };
    assert_eq!(t._value_of("arg1").as_deref(), Some("a"));
    assert!(t._value_of("arg2").is_none());
    assert!(t.value_of_path("path", &c).is_none());
    assert!(matches!(t.new_options(&c), Err(BardockError::Usage)));
}

#[test]
fn project_layout() {
    let c = Config::new("/work".to_string());
    let p = prepare(&opts("foo", None), &c).unwrap();
    assert_eq!(p.name, "foo");
    assert_eq!(p.dir, "/work/foo");
    assert_eq!(p.manifest_path(), "/work/foo/Cargo.toml");
    assert_eq!(p.lib_path(), "/work/foo/src/lib.rs");
    assert_eq!(p.main_path(), "/work/foo/src/main.rs");
    assert_eq!(p.cargo_config_dir(), "/work/foo/.cargo");
    assert_eq!(p.cargo_config_path(), "/work/foo/.cargo/config");
    let q = prepare(&opts("foo", Some("bar")), &c).unwrap();
    assert_eq!(q.name, "bar");
    assert_eq!(q.dir, "/work/foo");
    assert!(matches!(prepare(&opts("foo/", None), &c), Err(BardockError::InvalidPathForName)));
}

#[test]
fn linker_config_only_on_macos() {
    assert!(needs_linker_config("macos"));
    assert!(!needs_linker_config("linux"));
    assert_eq!(
        MACOS_CARGO_CONFIG,
        "[target.x86_64-apple-darwin]\nrustflags = [\n  \"-C\", \"link-arg=-undefined\",\n  \"-C\", \"link-arg=dynamic_lookup\",\n]"
    );
}

#[test]
fn lib_template_is_literal() {
    let expected = "use pyo3::prelude::*;
use pyo3::wrap_pyfunction;

/// Formats the sum of two numbers as string.
#[pyfunction]
fn sum_as_string(a: usize, b: usize) -> PyResult<String> {
    Ok((a + b).to_string())
}

/// A Python module implemented in Rust.
#[pymodule]
fn string_sum(py: Python, m: &PyModule) -> PyResult<()> {
    m.add_wrapped(wrap_pyfunction!(sum_as_string))?;

    Ok(())
}";
    assert_eq!(LIB_TEMPLATE, expected);
}

#[test]
fn given_name_must_be_a_valid_package_name() {
    assert!(matches!(get_name("/tmp/foo", &opts("/tmp/foo", Some("a/b"))), Err(BardockError::InvalidPathForName)));
    assert!(matches!(get_name("/tmp/foo", &opts("/tmp/foo", Some("a\\b"))), Err(BardockError::InvalidPathForName)));
    assert!(matches!(get_name("/tmp/foo", &opts("/tmp/foo", Some(""))), Err(BardockError::InvalidPathForName)));
    assert!(matches!(get_name("/tmp/foo", &opts("/tmp/foo", Some("a\tb"))), Err(BardockError::InvalidPathForName)));
    assert!(matches!(get_name("/tmp/foo", &opts("/tmp/foo", Some(".."))), Err(BardockError::InvalidPathForName)));
    assert!(matches!(get_name("/tmp/x\u{7}y", &opts("/tmp/x\u{7}y", None)), Err(BardockError::InvalidPathForName)));
    assert_eq!(get_name("/tmp/foo", &opts("/tmp/foo", Some("my-crate_2"))).unwrap(), "my-crate_2");
    assert_eq!(get_name("/tmp/päckchen", &opts("/tmp/päckchen", None)).unwrap(), "päckchen");
    assert!(is_valid_package_name("ok"));
    assert!(!is_valid_package_name("."));
    assert!(!is_valid_package_name("a\u{85}"));
    assert!(matches!(prepare(&opts("foo", Some("a/b")), &Config::new("/w".to_string())), Err(BardockError::InvalidPathForName)));
}

#[test]
fn existing_directory_fails_on_generator() {
    let r = generator_outcome(Ok((false, "error: destination `/work/foo` already exists".to_string())));
    match r {
        Err(e) => {
            assert!(matches!(&e, BardockError::SubprocessFailed(m) if m.contains("already exists")));
            assert_eq!(CliError::from_error(e).exit_code, 101);
        }
        Ok(()) => panic!("a failed generator fails the run"),
    }
}

#[test]
fn generator_launch_failure() {
    let r = generator_outcome(Err("No such file or directory".to_string()));
    assert!(matches!(r, Err(BardockError::SubprocessLaunch(_))));
    assert!(generator_outcome(Ok((true, String::new()))).is_ok());
}

#[test]
fn usage_error_exits_with_one() {
    let e = CliError::from_error(BardockError::Usage);
    assert_eq!(e.exit_code, 1);
    assert!(matches!(e.error, Some(BardockError::Usage)));
    assert_eq!(BardockError::ManifestIo.exit_code(), 101);
    assert_eq!(BardockError::Cleanup.exit_code(), 101);
    let c = CliError::new(BardockError::TemplateIo, 7);
    assert_eq!(c.exit_code, 7);
    assert!(!BardockError::ManifestShape.describe().is_empty());
    assert_eq!(BardockError::CurrentDir.exit_code(), 101);
    assert_eq!(BardockError::CurrentDir.describe(), "couldn't get the current directory of the process");
}
